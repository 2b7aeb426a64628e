use nexus_actor::add;
use nexus_actor::auto_respond::{AutoRespond, AutoRespondHandle};
use nexus_actor::messages::{AutoReceiveMessage, Terminated, TerminatedReason, Touch, Touched};
use nexus_actor::pid::Pid;
use nexus_actor::text::str_eq;
use std::sync::Arc;

#[test]
fn it_works() {
    let result = add(2, 2);
    assert_eq!(result, 4);
}

#[test]
fn add_reaches_the_largest_size() {
    assert_eq!(add(usize::MAX - 1, 1), usize::MAX);
    assert_eq!(add(0, 0), 0);
}

#[test]
fn terminated_reason_names_are_the_wire_names() {
    assert_eq!(TerminatedReason::Stopped.as_str_name(), "Stopped");
    assert_eq!(TerminatedReason::AddressTerminated.as_str_name(), "AddressTerminated");
    assert_eq!(TerminatedReason::NotFound.as_str_name(), "NotFound");
}

#[test]
fn terminated_reason_is_read_back_from_its_name() {
    assert_eq!(TerminatedReason::from_str_name("Stopped"), Some(TerminatedReason::Stopped));
    assert_eq!(
        TerminatedReason::from_str_name("AddressTerminated"),
        Some(TerminatedReason::AddressTerminated)
    );
    assert_eq!(TerminatedReason::from_str_name("NotFound"), Some(TerminatedReason::NotFound));
    assert_eq!(TerminatedReason::from_str_name("stopped"), None);
    assert_eq!(TerminatedReason::from_str_name(""), None);
    for reason in [
        TerminatedReason::Stopped,
        TerminatedReason::AddressTerminated,
        TerminatedReason::NotFound,
    ] {
        assert_eq!(TerminatedReason::from_str_name(reason.as_str_name()), Some(reason));
    }
}

#[test]
fn pid_compares_by_value() {
    let a = Pid::new("nonhost", "a");
    let b = Pid { address: "nonhost".to_string(), id: "a".to_string(), request_id: 0 };
    let c = Pid { address: "nonhost".to_string(), id: "a".to_string(), request_id: 1 };
    assert!(a == b);
    assert!(a.same_as(&b));
    assert!(a != c);
    assert!(!a.same_as(&Pid::new("nonhost", "b")));
    assert!(!a.same_as(&Pid::new("other", "a")));
    assert!(a.clone() == a);
    assert_eq!(a.address().as_str(), "nonhost");
    assert_eq!(a.id().as_str(), "a");
}

#[test]
fn string_slices_compare_by_content() {
    assert!(str_eq("abc", "abc"));
    assert!(!str_eq("abc", "abd"));
    assert!(!str_eq("abc", "ab"));
    assert!(str_eq("", ""));
}

#[test]
fn auto_receive_messages_compare_by_variant() {
    assert!(AutoReceiveMessage::PostStart.eq_message(&AutoReceiveMessage::PostStart));
    assert!(!AutoReceiveMessage::PostStart.eq_message(&AutoReceiveMessage::PoisonPill));
    assert!(AutoReceiveMessage::PreRestart == AutoReceiveMessage::PreRestart);
    assert_eq!(AutoReceiveMessage::PreStop.as_str(), "PreStop");
    assert_eq!(AutoReceiveMessage::PostStop.as_str(), "PostStop");
    assert_eq!(AutoReceiveMessage::PoisonPill.as_str(), "PoisonPill");
}

#[test]
fn touch_is_answered_with_the_own_pid() {
    let me = Pid::new("nonhost", "me");
    let touched = Touch {}.respond(&me);
    assert!(touched.who == Some(me));
}

#[test]
fn notices_compare_by_process_and_reason() {
    let a = Pid::new("nonhost", "a");
    let b = Pid::new("nonhost", "b");
    let stopped = |p: &Pid| Terminated { who: Some(p.clone()), why: TerminatedReason::Stopped };
    assert!(stopped(&a).eq_message(&stopped(&a)));
    assert!(!stopped(&a).eq_message(&stopped(&b)));
    assert!(!stopped(&a).eq_message(&Terminated { who: Some(a.clone()), why: TerminatedReason::NotFound }));
    assert!(!stopped(&a).eq_message(&Terminated { who: None, why: TerminatedReason::Stopped }));
    assert!(stopped(&a).clone().eq_message(&stopped(&a)));
    assert!(Touched { who: Some(a.clone()) }.eq_message(&Touched { who: Some(a.clone()) }));
    assert!(!Touched { who: Some(a.clone()) }.eq_message(&Touched { who: Some(b) }));
    assert!(!Touched { who: None }.eq_message(&Touched { who: Some(a) }));
    assert!(Touched { who: None }.eq_message(&Touched { who: None }));
}

#[test]
fn a_handle_answers_as_the_message_behind_it() {
    let me = Pid::new("nonhost", "me");
    let direct = Touch {}.get_auto_response(&me);
    assert!(direct.who == Some(me.clone()));
    let handle = AutoRespondHandle::new(Arc::new(Touch {}));
    let through = handle.get_auto_response(&me);
    assert!(through.eq_message(&direct));
}
