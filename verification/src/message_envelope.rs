//! A message together with its headers and its sender.

use crate::message::{Failure, MessageHandle, SystemMessage};
use crate::message_headers::MessageHeaders;
use crate::pid::{pids_match, same_pid, Pid};
use vstd::prelude::*;
use vstd::std_specs::cmp::PartialEqSpec;
use vstd::std_specs::cmp::PartialEqSpecImpl;

verus! {

/// A payload with optional headers and an optional sender. It is changed
/// only through the `with_*` builders and `set_header`.
pub struct MessageEnvelope<M> {
    header: Option<MessageHeaders>,
    message_handle: MessageHandle<M>,
    sender: Option<Pid>,
}

/// A `MessageEnvelope` as plain values.
pub struct MessageEnvelopeView<M> {
    pub header: Option<Map<Seq<char>, Seq<char>>>,
    pub message: MessageHandle<M>,
    pub sender: Option<Pid>,
}

/// The mapping of optional headers.
pub open spec fn header_view(header: Option<MessageHeaders>) -> Option<Map<Seq<char>, Seq<char>>> {
    match header {
        Some(h) => Some(h@),
        None => None,
    }
}

impl<M> View for MessageEnvelope<M> {
    type V = MessageEnvelopeView<M>;

    closed spec fn view(&self) -> MessageEnvelopeView<M> {
        MessageEnvelopeView {
            header: header_view(self.header),
            message: self.message_handle,
            sender: self.sender,
        }
    }
}

impl<M> MessageEnvelope<M> {
    /// An envelope around `message_handle`, without headers and sender.
    pub fn new(message_handle: MessageHandle<M>) -> (e: Self)
        ensures
            e@ == (MessageEnvelopeView { header: None, message: message_handle, sender: None }),
    {
        MessageEnvelope { header: None, message_handle, sender: None }
    }

    /// The envelope with `header` as its headers.
    pub fn with_header(self, header: MessageHeaders) -> (e: Self)
        ensures
            e@ == (MessageEnvelopeView { header: Some(header@), ..self@ }),
    {
        MessageEnvelope { header: Some(header), message_handle: self.message_handle, sender: self.sender }
    }

    /// The envelope with `sender` as its sender.
    pub fn with_sender(self, sender: Pid) -> (e: Self)
        ensures
            e@ == (MessageEnvelopeView { sender: Some(sender), ..self@ }),
    {
        MessageEnvelope { header: self.header, message_handle: self.message_handle, sender: Some(sender) }
    }

    /// The payload.
    pub fn get_message_handle(&self) -> (m: &MessageHandle<M>)
        ensures
            *m == self@.message,
    {
        &self.message_handle
    }

    /// The sender, if one was set.
    pub fn get_sender(&self) -> (s: Option<&Pid>)
        ensures
            match s {
                Some(p) => self@.sender == Some(*p),
                None => self@.sender is None,
            },
    {
        match &self.sender {
            Some(p) => Some(p),
            None => None,
        }
    }

    /// The headers, if there are any.
    pub fn get_header(&self) -> (h: Option<&MessageHeaders>)
        ensures
            match h {
                Some(x) => self@.header == Some(x@),
                None => self@.header is None,
            },
    {
        match &self.header {
            Some(x) => Some(x),
            None => None,
        }
    }

    /// The headers, if there are any.
    pub fn get_headers(&self) -> (h: Option<&MessageHeaders>)
        ensures
            match h {
                Some(x) => self@.header == Some(x@),
                None => self@.header is None,
            },
    {
        self.get_header()
    }

    /// The value of the header `key`: `None` where the envelope has no
    /// headers or none under that key.
    pub fn get_header_value(&self, key: &str) -> (v: Option<String>)
        ensures
            match v {
                Some(s) => self@.header is Some && self@.header.unwrap().contains_key(key@) && s@
                    == self@.header.unwrap()[key@],
                None => self@.header is None || !self@.header.unwrap().contains_key(key@),
            },
    {
        match &self.header {
            Some(h) => match h.get(key) {
                Some(s) => Some(s.clone()),
                None => None,
            },
            None => None,
        }
    }

    /// Stores `value` under the header `key`. An envelope without headers
    /// gets headers with this one entry.
    pub fn set_header(&mut self, key: String, value: String)
        ensures
            final(self)@ == (MessageEnvelopeView {
                header: Some(
                    match old(self)@.header {
                        Some(h) => h.insert(key@, value@),
                        None => Map::<Seq<char>, Seq<char>>::empty().insert(key@, value@),
                    },
                ),
                ..old(self)@
            }),
    {
        let mut headers = match self.header.take() {
            Some(h) => h,
            None => MessageHeaders::new(),
        };
        headers.set(key, value);
        self.header = Some(headers);
    }

    /// The three parts of the envelope.
    pub fn into_parts(self) -> (parts: (Option<MessageHeaders>, MessageHandle<M>, Option<Pid>))
        ensures
            header_view(parts.0) == self@.header,
            parts.1 == self@.message,
            parts.2 == self@.sender,
    {
        (self.header, self.message_handle, self.sender)
    }
}

/// The envelope that `message_handle` is, or a new envelope around it.
pub fn wrap_envelope<M>(message_handle: MessageHandle<M>) -> (e: MessageEnvelope<M>)
    ensures
        match message_handle {
            MessageHandle::Envelope(inner) => e == *inner,
            _ => e@ == (MessageEnvelopeView { header: None, message: message_handle, sender: None }),
        },
{
    match message_handle {
        MessageHandle::Envelope(inner) => *inner,
        other => MessageEnvelope::new(other),
    }
}

/// The headers, payload and sender of the envelope that `message_handle` is;
/// of any other message, the message itself without headers and sender.
pub fn unwrap_envelope<M>(message_handle: MessageHandle<M>) -> (parts: (
    Option<MessageHeaders>,
    MessageHandle<M>,
    Option<Pid>,
))
    ensures
        match message_handle {
            MessageHandle::Envelope(inner) => header_view(parts.0) == inner@.header && parts.1
                == inner@.message && parts.2 == inner@.sender,
            _ => parts.0 is None && parts.1 == message_handle && parts.2 is None,
        },
{
    match message_handle {
        MessageHandle::Envelope(inner) => {
            let e: MessageEnvelope<M> = *inner;
            e.into_parts()
        },
        other => (None, other, None),
    }
}

/// The headers of the envelope that `message_handle` is, if it is one and
/// has any.
pub fn unwrap_envelope_header<M>(message_handle: MessageHandle<M>) -> (h: Option<MessageHeaders>)
    ensures
        match message_handle {
            MessageHandle::Envelope(inner) => header_view(h) == inner@.header,
            _ => h is None,
        },
{
    unwrap_envelope(message_handle).0
}

/// The payload of the envelope that `message_handle` is; any other message
/// as it is.
pub fn unwrap_envelope_message<M>(message_handle: MessageHandle<M>) -> (m: MessageHandle<M>)
    ensures
        match message_handle {
            MessageHandle::Envelope(inner) => m == inner@.message,
            _ => m == message_handle,
        },
{
    unwrap_envelope(message_handle).1
}

/// The sender of the envelope that `message_handle` is, if it is one and
/// has a sender.
pub fn unwrap_envelope_sender<M>(message_handle: MessageHandle<M>) -> (s: Option<Pid>)
    ensures
        match message_handle {
            MessageHandle::Envelope(inner) => s == inner@.sender,
            _ => s is None,
        },
{
    unwrap_envelope(message_handle).2
}

/// Whether two messages of the runtime are equal: the same kind, about the
/// same process. Two failure reports are equal whatever they report.
pub open spec fn same_system_message<M>(a: SystemMessage<M>, b: SystemMessage<M>) -> bool {
    match (a, b) {
        (SystemMessage::Started, SystemMessage::Started) => true,
        (SystemMessage::Stop, SystemMessage::Stop) => true,
        (SystemMessage::Restart, SystemMessage::Restart) => true,
        (SystemMessage::Watch(p), SystemMessage::Watch(q)) => p@ == q@,
        (SystemMessage::Unwatch(p), SystemMessage::Unwatch(q)) => p@ == q@,
        (SystemMessage::Terminated(s), SystemMessage::Terminated(t)) => same_pid(s.who, t.who) && s.why == t.why,
        (SystemMessage::Failure(_), SystemMessage::Failure(_)) => true,
        _ => false,
    }
}

/// Whether two messages are equal: the same kind with equal content, where
/// messages of the application compare as their own `==` says.
pub open spec fn same_message<M: PartialEq>(a: MessageHandle<M>, b: MessageHandle<M>) -> bool
    decreases a,
{
    match (a, b) {
        (MessageHandle::User(x), MessageHandle::User(y)) => x.eq_spec(&y),
        (MessageHandle::Envelope(x), MessageHandle::Envelope(y)) => {
            &&& x@.header == y@.header
            &&& same_pid(x@.sender, y@.sender)
            &&& same_message(x@.message, y@.message)
        },
        (MessageHandle::System(x), MessageHandle::System(y)) => same_system_message(*x, *y),
        (MessageHandle::AutoReceive(x), MessageHandle::AutoReceive(y)) => x == y,
        (MessageHandle::Terminated(s), MessageHandle::Terminated(t)) => same_pid(s.who, t.who) && s.why == t.why,
        (MessageHandle::Touch(_), MessageHandle::Touch(_)) => true,
        (MessageHandle::Touched(s), MessageHandle::Touched(t)) => same_pid(s.who, t.who),
        (MessageHandle::DeadLetterResponse(s), MessageHandle::DeadLetterResponse(t)) => same_pid(
            s.target,
            t.target,
        ),
        _ => false,
    }
}

/// Whether two envelopes are equal: headers, payload and sender all match.
pub open spec fn same_envelope<M: PartialEq>(a: MessageEnvelopeView<M>, b: MessageEnvelopeView<M>) -> bool {
    a.header == b.header && same_message(a.message, b.message) && same_pid(a.sender, b.sender)
}

/// Compares two messages of the runtime.
pub fn system_messages_equal<M>(a: &SystemMessage<M>, b: &SystemMessage<M>) -> (r: bool)
    ensures
        r == same_system_message(*a, *b),
{
    match (a, b) {
        (SystemMessage::Started, SystemMessage::Started) => true,
        (SystemMessage::Stop, SystemMessage::Stop) => true,
        (SystemMessage::Restart, SystemMessage::Restart) => true,
        (SystemMessage::Watch(p), SystemMessage::Watch(q)) => p.same_as(q),
        (SystemMessage::Unwatch(p), SystemMessage::Unwatch(q)) => p.same_as(q),
        (SystemMessage::Terminated(s), SystemMessage::Terminated(t)) => s.eq_message(t),
        (SystemMessage::Failure(_), SystemMessage::Failure(_)) => true,
        _ => false,
    }
}

fn headers_match(a: &Option<MessageHeaders>, b: &Option<MessageHeaders>) -> (r: bool)
    ensures
        r == (header_view(*a) == header_view(*b)),
{
    match (a, b) {
        (Some(x), Some(y)) => x.same_as(y),
        (None, None) => true,
        _ => false,
    }
}

/// Compares two messages.
pub fn messages_equal<M: PartialEq>(a: &MessageHandle<M>, b: &MessageHandle<M>) -> (r: bool)
    ensures
        M::obeys_eq_spec() ==> r == same_message(*a, *b),
    decreases *a,
{
    match (a, b) {
        (MessageHandle::User(x), MessageHandle::User(y)) => *x == *y,
        (MessageHandle::Envelope(x), MessageHandle::Envelope(y)) => {
            headers_match(&x.header, &y.header) && pids_match(&x.sender, &y.sender) && messages_equal(
                &x.message_handle,
                &y.message_handle,
            )
        },
        (MessageHandle::System(x), MessageHandle::System(y)) => system_messages_equal(&**x, &**y),
        (MessageHandle::AutoReceive(x), MessageHandle::AutoReceive(y)) => x.eq_message(y),
        (MessageHandle::Terminated(s), MessageHandle::Terminated(t)) => s.eq_message(t),
        (MessageHandle::Touch(_), MessageHandle::Touch(_)) => true,
        (MessageHandle::Touched(s), MessageHandle::Touched(t)) => pids_match(&s.who, &t.who),
        (MessageHandle::DeadLetterResponse(s), MessageHandle::DeadLetterResponse(t)) => pids_match(
            &s.target,
            &t.target,
        ),
        _ => false,
    }
}

impl<M: PartialEq> MessageEnvelope<M> {
    /// Whether the two envelopes are equal: headers, payload and sender all
    /// match.
    pub fn eq_message(&self, other: &MessageEnvelope<M>) -> (r: bool)
        ensures
            M::obeys_eq_spec() ==> r == same_envelope(self@, other@),
    {
        headers_match(&self.header, &other.header) && messages_equal(
            &self.message_handle,
            &other.message_handle,
        ) && pids_match(&self.sender, &other.sender)
    }
}

impl<M: PartialEq> PartialEq for MessageEnvelope<M> {
    fn eq(&self, other: &Self) -> (r: bool) {
        self.eq_message(other)
    }
}

impl<M: PartialEq> PartialEqSpecImpl for MessageEnvelope<M> {
    open spec fn obeys_eq_spec() -> bool {
        M::obeys_eq_spec()
    }

    open spec fn eq_spec(&self, other: &Self) -> bool {
        same_envelope(self@, other@)
    }
}

impl<M: PartialEq> PartialEq for MessageHandle<M> {
    fn eq(&self, other: &Self) -> (r: bool) {
        messages_equal(self, other)
    }
}

impl<M: PartialEq> PartialEqSpecImpl for MessageHandle<M> {
    open spec fn obeys_eq_spec() -> bool {
        M::obeys_eq_spec()
    }

    open spec fn eq_spec(&self, other: &Self) -> bool {
        same_message(*self, *other)
    }
}

/// Whether `b` is a copy of the failure report `a`: the same process and
/// history, a reason that shares the captured value, and a copy of the
/// message.
pub open spec fn failure_copy<M: Clone>(a: Failure<M>, b: Failure<M>) -> bool
    decreases a, 0int,
{
    &&& b.who == a.who
    &&& b.reason.is_taken() == a.reason.is_taken()
    &&& b.restart_stats@ == a.restart_stats@
    &&& b.restart_stats.clock() == a.restart_stats.clock()
    &&& message_copy(a.message, b.message)
}

/// Whether `b` is a copy of the message of the runtime `a`.
pub open spec fn system_message_copy<M: Clone>(a: SystemMessage<M>, b: SystemMessage<M>) -> bool
    decreases a, 0int,
{
    match (a, b) {
        (SystemMessage::Failure(f), SystemMessage::Failure(g)) => failure_copy(f, g),
        (SystemMessage::Failure(_), _) => false,
        (_, SystemMessage::Failure(_)) => false,
        _ => a == b,
    }
}

/// Whether `b` is a copy of the message `a`: the same kind with the same
/// content, where a message of the application is copied as its own `clone`
/// does.
pub open spec fn message_copy<M: Clone>(a: MessageHandle<M>, b: MessageHandle<M>) -> bool
    decreases a, 0int,
{
    match (a, b) {
        (MessageHandle::User(x), MessageHandle::User(y)) => cloned::<M>(x, y),
        (MessageHandle::Envelope(x), MessageHandle::Envelope(y)) => envelope_copy(x@, y@),
        (MessageHandle::System(x), MessageHandle::System(y)) => system_message_copy(*x, *y),
        (MessageHandle::User(_), _) => false,
        (MessageHandle::Envelope(_), _) => false,
        (MessageHandle::System(_), _) => false,
        (_, MessageHandle::User(_)) => false,
        (_, MessageHandle::Envelope(_)) => false,
        (_, MessageHandle::System(_)) => false,
        _ => a == b,
    }
}

/// Whether `b` is a copy of the envelope `a`: the same headers and sender,
/// and a copy of the payload.
pub open spec fn envelope_copy<M: Clone>(a: MessageEnvelopeView<M>, b: MessageEnvelopeView<M>) -> bool
    decreases a.message, 1int,
{
    b.header == a.header && b.sender == a.sender && message_copy(a.message, b.message)
}

fn copy_pid(a: &Option<Pid>) -> (b: Option<Pid>)
    ensures
        b == *a,
{
    match a {
        Some(p) => Some(p.clone()),
        None => None,
    }
}

fn copy_failure<M: Clone>(a: &Failure<M>) -> (b: Failure<M>)
    ensures
        failure_copy(*a, b),
    decreases *a,
{
    Failure {
        who: a.who.clone(),
        reason: a.reason.clone(),
        restart_stats: a.restart_stats.clone(),
        message: copy_message(&a.message),
    }
}

fn copy_system_message<M: Clone>(a: &SystemMessage<M>) -> (b: SystemMessage<M>)
    ensures
        system_message_copy(*a, b),
    decreases *a,
{
    match a {
        SystemMessage::Started => SystemMessage::Started,
        SystemMessage::Stop => SystemMessage::Stop,
        SystemMessage::Restart => SystemMessage::Restart,
        SystemMessage::Watch(p) => SystemMessage::Watch(p.clone()),
        SystemMessage::Unwatch(p) => SystemMessage::Unwatch(p.clone()),
        SystemMessage::Terminated(t) => SystemMessage::Terminated(t.clone()),
        SystemMessage::Failure(f) => SystemMessage::Failure(copy_failure(f)),
    }
}

fn copy_envelope<M: Clone>(a: &MessageEnvelope<M>) -> (b: MessageEnvelope<M>)
    ensures
        envelope_copy(a@, b@),
    decreases *a,
{
    let header = match &a.header {
        Some(h) => Some(h.clone()),
        None => None,
    };
    MessageEnvelope { header, message_handle: copy_message(&a.message_handle), sender: copy_pid(&a.sender) }
}

fn copy_message<M: Clone>(a: &MessageHandle<M>) -> (b: MessageHandle<M>)
    ensures
        message_copy(*a, b),
    decreases *a,
{
    match a {
        MessageHandle::User(x) => MessageHandle::User(x.clone()),
        MessageHandle::Envelope(e) => MessageHandle::Envelope(Box::new(copy_envelope(&**e))),
        MessageHandle::System(m) => MessageHandle::System(Box::new(copy_system_message(&**m))),
        MessageHandle::AutoReceive(m) => MessageHandle::AutoReceive(*m),
        MessageHandle::Terminated(t) => MessageHandle::Terminated(t.clone()),
        MessageHandle::Touch(t) => MessageHandle::Touch(*t),
        MessageHandle::Touched(t) => MessageHandle::Touched(t.clone()),
        MessageHandle::DeadLetterResponse(r) => MessageHandle::DeadLetterResponse(r.clone()),
    }
}

impl<M: Clone> Clone for MessageHandle<M> {
    fn clone(&self) -> (r: Self)
        ensures
            message_copy(*self, r),
    {
        copy_message(self)
    }
}

impl<M: Clone> Clone for SystemMessage<M> {
    fn clone(&self) -> (r: Self)
        ensures
            system_message_copy(*self, r),
    {
        copy_system_message(self)
    }
}

impl<M: Clone> Clone for Failure<M> {
    fn clone(&self) -> (r: Self)
        ensures
            failure_copy(*self, r),
    {
        copy_failure(self)
    }
}

impl<M: Clone> Clone for MessageEnvelope<M> {
    fn clone(&self) -> (r: Self)
        ensures
            envelope_copy(self@, r@),
    {
        copy_envelope(self)
    }
}

} // verus!
