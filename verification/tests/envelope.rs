use nexus_actor::message::{MessageHandle, SystemMessage};
use nexus_actor::message_envelope::{
    unwrap_envelope, unwrap_envelope_header, unwrap_envelope_message, unwrap_envelope_sender, wrap_envelope,
    MessageEnvelope,
};
use nexus_actor::message_headers::MessageHeaders;
use nexus_actor::messages::AutoReceiveMessage;
use nexus_actor::pid::Pid;

fn text(handle: &MessageHandle<String>) -> &str {
    match handle {
        MessageHandle::User(s) => s.as_str(),
        _ => panic!("expected a user message"),
    }
}

#[test]
fn headers_map_keys_to_values() {
    let mut headers = MessageHeaders::new();
    assert_eq!(headers.len(), 0);
    assert!(headers.get("a").is_none());
    headers.set("a".to_string(), "1".to_string());
    headers.set("b".to_string(), "2".to_string());
    assert_eq!(headers.get("a").unwrap(), "1");
    assert_eq!(headers.get("b").unwrap(), "2");
    assert!(headers.get("c").is_none());
    headers.set("a".to_string(), "3".to_string());
    assert_eq!(headers.get("a").unwrap(), "3");
    assert_eq!(headers.len(), 2);
    let copy = headers.duplicate();
    headers.set("b".to_string(), "4".to_string());
    assert_eq!(copy.get("b").unwrap(), "2");
    assert_eq!(copy.get("a").unwrap(), "3");
}

#[test]
fn a_new_envelope_has_neither_headers_nor_sender() {
    let envelope = MessageEnvelope::new(MessageHandle::new("hello".to_string()));
    assert!(envelope.get_header().is_none());
    assert!(envelope.get_headers().is_none());
    assert!(envelope.get_sender().is_none());
    assert_eq!(text(envelope.get_message_handle()), "hello");
    assert!(envelope.get_header_value("a").is_none());
}

#[test]
fn builders_set_headers_and_sender() {
    let mut headers = MessageHeaders::new();
    headers.set("trace".to_string(), "42".to_string());
    let sender = Pid::new("nonhost", "s");
    let envelope = MessageEnvelope::new(MessageHandle::new("hello".to_string()))
        .with_header(headers)
        .with_sender(sender.clone());
    assert_eq!(envelope.get_header_value("trace"), Some("42".to_string()));
    assert_eq!(envelope.get_header_value("other"), None);
    assert!(envelope.get_sender() == Some(&sender));
    assert_eq!(text(envelope.get_message_handle()), "hello");
}

#[test]
fn set_header_creates_the_headers_when_needed() {
    let mut envelope = MessageEnvelope::new(MessageHandle::new("m".to_string()));
    envelope.set_header("k".to_string(), "v".to_string());
    assert_eq!(envelope.get_header_value("k"), Some("v".to_string()));
    envelope.set_header("k".to_string(), "w".to_string());
    envelope.set_header("l".to_string(), "x".to_string());
    assert_eq!(envelope.get_header_value("k"), Some("w".to_string()));
    assert_eq!(envelope.get_header_value("l"), Some("x".to_string()));
    assert_eq!(envelope.get_header().unwrap().len(), 2);
    assert!(envelope.get_sender().is_none());
}

#[test]
fn wrapping_an_envelope_gives_the_envelope_itself() {
    let sender = Pid::new("nonhost", "s");
    let envelope = MessageEnvelope::new(MessageHandle::new("inner".to_string())).with_sender(sender.clone());
    let wrapped = wrap_envelope(MessageHandle::Envelope(Box::new(envelope)));
    assert!(wrapped.get_sender() == Some(&sender));
    assert_eq!(text(wrapped.get_message_handle()), "inner");
}

#[test]
fn wrapping_a_plain_message_gives_a_bare_envelope() {
    let wrapped = wrap_envelope(MessageHandle::new("plain".to_string()));
    assert!(wrapped.get_sender().is_none());
    assert!(wrapped.get_header().is_none());
    assert_eq!(text(wrapped.get_message_handle()), "plain");
}

#[test]
fn unwrapping_gives_the_three_parts() {
    let mut headers = MessageHeaders::new();
    headers.set("k".to_string(), "v".to_string());
    let sender = Pid::new("nonhost", "s");
    let make = || {
        let mut h = MessageHeaders::new();
        h.set("k".to_string(), "v".to_string());
        MessageHandle::Envelope(Box::new(
            MessageEnvelope::new(MessageHandle::new("inner".to_string()))
                .with_header(h)
                .with_sender(Pid::new("nonhost", "s")),
        ))
    };
    let (header, message, from) = unwrap_envelope(make());
    assert_eq!(header.unwrap().get("k").unwrap(), "v");
    assert_eq!(text(&message), "inner");
    assert!(from == Some(sender.clone()));
    assert_eq!(unwrap_envelope_header(make()).unwrap().get("k").unwrap(), "v");
    assert_eq!(text(&unwrap_envelope_message(make())), "inner");
    assert!(unwrap_envelope_sender(make()) == Some(sender));
}

#[test]
fn unwrapping_a_plain_message_gives_the_message_alone() {
    let (header, message, from) = unwrap_envelope(MessageHandle::new("plain".to_string()));
    assert!(header.is_none());
    assert!(from.is_none());
    assert_eq!(text(&message), "plain");
    assert!(unwrap_envelope_header(MessageHandle::new("plain".to_string())).is_none());
    assert!(unwrap_envelope_sender(MessageHandle::new("plain".to_string())).is_none());
    assert_eq!(text(&unwrap_envelope_message(MessageHandle::new("plain".to_string()))), "plain");
}

#[test]
fn handles_know_their_kind() {
    let user: MessageHandle<String> = MessageHandle::new("u".to_string());
    assert!(!user.is_system());
    assert!(!user.is_envelope());
    assert_eq!(user.to_user().unwrap(), "u");
    let system: MessageHandle<String> = MessageHandle::system(SystemMessage::Started);
    assert!(system.is_system());
    assert!(system.to_user().is_none());
    let envelope: MessageHandle<String> =
        MessageHandle::Envelope(Box::new(MessageEnvelope::new(MessageHandle::new("e".to_string()))));
    assert!(envelope.is_envelope());
    AutoReceiveMessage::PostStart.auto_receive_message(&Pid::new("nonhost", "p"), user);
}

fn envelope(body: &str, header: Option<(&str, &str)>, sender: Option<&str>) -> MessageEnvelope<String> {
    let mut e = MessageEnvelope::new(MessageHandle::new(body.to_string()));
    if let Some((k, v)) = header {
        e.set_header(k.to_string(), v.to_string());
    }
    if let Some(s) = sender {
        e = e.with_sender(Pid::new("nonhost", s));
    }
    e
}

#[test]
fn envelopes_are_equal_when_headers_payload_and_sender_match() {
    assert!(envelope("m", Some(("k", "v")), Some("s")) == envelope("m", Some(("k", "v")), Some("s")));
    assert!(envelope("m", None, None) == envelope("m", None, None));
    assert!(envelope("m", Some(("k", "v")), Some("s")) != envelope("n", Some(("k", "v")), Some("s")));
    assert!(envelope("m", Some(("k", "v")), Some("s")) != envelope("m", Some(("k", "w")), Some("s")));
    assert!(envelope("m", Some(("k", "v")), Some("s")) != envelope("m", Some(("l", "v")), Some("s")));
    assert!(envelope("m", Some(("k", "v")), Some("s")) != envelope("m", None, Some("s")));
    assert!(envelope("m", Some(("k", "v")), Some("s")) != envelope("m", Some(("k", "v")), Some("t")));
    assert!(envelope("m", Some(("k", "v")), Some("s")) != envelope("m", Some(("k", "v")), None));
    assert!(envelope("m", None, None).eq_message(&envelope("m", None, None)));
}

#[test]
fn headers_compare_as_mappings() {
    let mut a = MessageHeaders::new();
    a.set("x".to_string(), "1".to_string());
    a.set("y".to_string(), "2".to_string());
    let mut b = MessageHeaders::new();
    b.set("y".to_string(), "2".to_string());
    b.set("x".to_string(), "1".to_string());
    assert!(a.same_as(&b));
    b.set("z".to_string(), "3".to_string());
    assert!(!a.same_as(&b));
    assert!(!b.same_as(&a));
    a.set("z".to_string(), "4".to_string());
    assert!(!a.same_as(&b));
    assert!(MessageHeaders::new().same_as(&MessageHeaders::new()));
}

#[test]
fn messages_compare_by_kind_and_content() {
    let user = |s: &str| -> MessageHandle<String> { MessageHandle::new(s.to_string()) };
    assert!(user("a") == user("a"));
    assert!(user("a") != user("b"));
    let system = |m: SystemMessage<String>| MessageHandle::system(m);
    assert!(system(SystemMessage::Started) == system(SystemMessage::Started));
    assert!(system(SystemMessage::Started) != system(SystemMessage::Stop));
    assert!(
        system(SystemMessage::Watch(Pid::new("nonhost", "a"))) == system(SystemMessage::Watch(Pid::new("nonhost", "a")))
    );
    assert!(
        system(SystemMessage::Watch(Pid::new("nonhost", "a"))) != system(SystemMessage::Watch(Pid::new("nonhost", "b")))
    );
    assert!(
        system(SystemMessage::Watch(Pid::new("nonhost", "a")))
            != system(SystemMessage::Unwatch(Pid::new("nonhost", "a")))
    );
    assert!(user("a") != system(SystemMessage::Started));
    let auto = |m: AutoReceiveMessage| -> MessageHandle<String> { MessageHandle::AutoReceive(m) };
    assert!(auto(AutoReceiveMessage::PreStop) == auto(AutoReceiveMessage::PreStop));
    assert!(auto(AutoReceiveMessage::PreStop) != auto(AutoReceiveMessage::PostStop));
    let wrapped = |s: &str| -> MessageHandle<String> { MessageHandle::Envelope(Box::new(envelope(s, None, None))) };
    assert!(wrapped("a") == wrapped("a"));
    assert!(wrapped("a") != wrapped("b"));
    assert!(wrapped("a") != user("a"));
}

#[test]
fn a_copy_of_an_envelope_is_equal_to_it() {
    let original = envelope("m", Some(("k", "v")), Some("s"));
    let copy = original.clone();
    assert!(copy == original);
    assert_eq!(copy.get_header_value("k"), Some("v".to_string()));
    assert!(copy.get_sender() == Some(&Pid::new("nonhost", "s")));
    let mut changed = original.clone();
    changed.set_header("k".to_string(), "w".to_string());
    assert!(changed != original);
    assert_eq!(original.get_header_value("k"), Some("v".to_string()));
}

#[test]
fn a_copy_of_a_message_is_of_the_same_kind() {
    let user: MessageHandle<String> = MessageHandle::new("u".to_string());
    assert!(user.clone() == user);
    let wrapped: MessageHandle<String> = MessageHandle::Envelope(Box::new(envelope("e", None, Some("s"))));
    assert!(wrapped.clone() == wrapped);
    let watch: MessageHandle<String> = MessageHandle::system(SystemMessage::Watch(Pid::new("nonhost", "w")));
    assert!(watch.clone() == watch);
    assert!(watch.clone() != MessageHandle::system(SystemMessage::Watch(Pid::new("nonhost", "x"))));
    let auto: MessageHandle<String> = MessageHandle::AutoReceive(AutoReceiveMessage::PreRestart);
    assert!(auto.clone() == auto);
    let started: SystemMessage<String> = SystemMessage::Started;
    assert!(matches!(started.clone(), SystemMessage::Started));
    let mut headers = MessageHeaders::new();
    headers.set("a".to_string(), "1".to_string());
    let same = headers.clone();
    headers.set("a".to_string(), "2".to_string());
    assert_eq!(same.get("a").unwrap(), "1");
}
