use nexus_actor::endpoint::Endpoint;
use nexus_actor::event_stream::{EventStream, Subscription};
use nexus_actor::pid::Pid;
use nexus_actor::pid_set::PidSet;
use nexus_actor::registry::ProcessRegistry;

#[test]
fn a_name_is_held_by_one_process() {
    let mut registry: ProcessRegistry<u32> = ProcessRegistry::new("nonhost".to_string());
    assert_eq!(registry.get_address(), "nonhost");
    let (a, inserted) = registry.add_process(1, "a");
    assert!(inserted);
    assert!(a == Pid::new("nonhost", "a"));
    let (again, inserted_again) = registry.add_process(2, "a");
    assert!(!inserted_again);
    assert!(again == a);
    assert_eq!(registry.get(&a), Some(&1));
    assert_eq!(registry.len(), 1);
    let (b, _) = registry.add_process(3, "b");
    assert_eq!(registry.get(&b), Some(&3));
    assert_eq!(registry.len(), 2);
}

#[test]
fn lookup_goes_by_address_and_name() {
    let mut registry: ProcessRegistry<u32> = ProcessRegistry::new("nonhost".to_string());
    registry.add_process(1, "a");
    assert!(registry.contains(&Pid::new("nonhost", "a")));
    assert!(!registry.contains(&Pid::new("elsewhere", "a")));
    assert!(!registry.contains(&Pid::new("nonhost", "b")));
    assert_eq!(registry.get(&Pid::new("elsewhere", "a")), None);
    // The request counter is no part of the name.
    let with_counter = Pid { address: "nonhost".to_string(), id: "a".to_string(), request_id: 9 };
    assert_eq!(registry.get(&with_counter), Some(&1));
}

#[test]
fn a_removed_process_is_gone() {
    let mut registry: ProcessRegistry<u32> = ProcessRegistry::new("nonhost".to_string());
    let (a, _) = registry.add_process(1, "a");
    let (b, _) = registry.add_process(2, "b");
    assert_eq!(registry.remove(&a), Some(1));
    assert_eq!(registry.remove(&a), None);
    assert_eq!(registry.get(&a), None);
    assert_eq!(registry.get(&b), Some(&2));
    assert_eq!(registry.remove(&Pid::new("elsewhere", "b")), None);
    assert_eq!(registry.len(), 1);
    // The name is free again.
    let (_, inserted) = registry.add_process(5, "a");
    assert!(inserted);
    assert_eq!(registry.get(&a), Some(&5));
}

#[test]
fn a_pid_set_holds_each_pid_once() {
    let mut set = PidSet::new();
    assert!(set.is_empty());
    assert!(set.add(Pid::new("nonhost", "a")));
    assert!(set.add(Pid::new("nonhost", "b")));
    assert!(!set.add(Pid::new("nonhost", "a")));
    assert_eq!(set.len(), 2);
    assert!(set.contains(&Pid::new("nonhost", "b")));
    assert!(!set.contains(&Pid::new("nonhost", "c")));
    assert!(set.remove(&Pid::new("nonhost", "a")));
    assert!(!set.remove(&Pid::new("nonhost", "a")));
    let left: Vec<String> = set.to_vec().into_iter().map(|p| p.id).collect();
    assert_eq!(left, vec!["b"]);
}

#[test]
fn subscriptions_are_kept_in_order() {
    let mut stream = EventStream::new();
    assert_eq!(stream.len(), 0);
    let a = stream.subscribe();
    let b = stream.subscribe();
    let c = stream.subscribe();
    assert_eq!((a.id, b.id, c.id), (0, 1, 2));
    assert!(stream.publish() == vec![a, b, c]);
    assert!(stream.unsubscribe(&b));
    assert!(!stream.unsubscribe(&b));
    assert!(!stream.unsubscribe(&Subscription { id: 77 }));
    assert!(stream.publish() == vec![a, c]);
    let d = stream.subscribe();
    assert_eq!(d.id, 3);
    assert_eq!(stream.len(), 3);
}

#[test]
fn an_endpoint_has_the_address_of_its_watcher() {
    let writer = Pid::new("remote:1", "writer");
    let watcher = Pid::new("remote:2", "watcher");
    let endpoint = Endpoint::new(writer.clone(), watcher.clone());
    assert!(endpoint.get_writer() == writer);
    assert!(endpoint.get_watcher() == watcher);
    assert_eq!(endpoint.get_address(), "remote:2");
    assert!(endpoint.clone().get_writer() == writer);
}
