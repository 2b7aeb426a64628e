use nexus_actor::actor_inner_error::ActorInnerError;
use nexus_actor::actor_system::{subscribe_supervision, ActorSystem};
use nexus_actor::system_view::{SpawnError, Step};
use nexus_actor::config::{Config, ConfigOption, Dispatcher};
use nexus_actor::mailbox::{Mailbox, RunState};
use nexus_actor::message::{Failure, MessageHandle, SystemMessage};
use nexus_actor::message_envelope::MessageEnvelope;
use nexus_actor::pid::Pid;
use nexus_actor::props::{Callables, Props};
use nexus_actor::restart_statistics::RestartStatistics;
use nexus_actor::supervisor::{Directive, SupervisorStrategy};
use std::sync::{Arc, Mutex};

const SECOND: u64 = 1_000_000_000;
const MILLI: u64 = 1_000_000;

struct Plain;

impl Callables for Plain {
    type Producer = u32;
    type Receive = u32;
    type MailboxProducer = u32;
    type Spawner = u32;
    type SpawnMiddleware = Box<dyn Fn(u32) -> u32>;
    type Receiver = u32;
    type ReceiverMiddleware = Box<dyn Fn(u32) -> u32>;
    type Sender = u32;
    type SenderMiddleware = Box<dyn Fn(u32) -> u32>;
    type Decorator = u32;
    type ContextDecorator = Box<dyn Fn(u32) -> u32>;
    type InitHook = Box<dyn Fn(Pid)>;

    fn receiver_terminal() -> u32 {
        0
    }

    fn sender_terminal() -> u32 {
        0
    }

    fn spawner_terminal() -> u32 {
        0
    }

    fn decorator_terminal() -> u32 {
        0
    }
}

type System = ActorSystem<String, Plain>;

fn props() -> Props<Plain> {
    Props::from_producer_func(0)
}

fn supervisor_props(strategy: SupervisorStrategy) -> Props<Plain> {
    Props::from_producer_func_with_opts(0, vec![Props::with_supervisor_strategy(strategy)])
}

fn text(s: &str) -> MessageHandle<String> {
    MessageHandle::new(s.to_string())
}

/// Runs every mailbox that is due until none is left. A message whose text
/// begins with "fail" makes the receive logic fail. Returns what the host was
/// told, as lines of the form `name:what`.
fn run(system: &mut System, now: u64) -> Vec<String> {
    let mut log = Vec::new();
    while let Some(pid) = system.next_scheduled() {
        if !system.begin_run(&pid) {
            continue;
        }
        loop {
            match system.poll(&pid, now) {
                Step::Done => break,
                Step::Receive => {
                    let current = system.get_actor(&pid).unwrap().context.get_message_handle().unwrap();
                    let body = match current {
                        MessageHandle::User(s) => s.clone(),
                        MessageHandle::Envelope(e) => match e.get_message_handle() {
                            MessageHandle::User(s) => s.clone(),
                            _ => String::new(),
                        },
                        _ => String::new(),
                    };
                    log.push(format!("{}:receive {}", pid.id, body));
                    let outcome = if body.starts_with("fail") {
                        Err(ActorInnerError::new(body.clone()))
                    } else {
                        Ok(())
                    };
                    match system.complete(&pid, outcome, now) {
                        Step::Backoff { targets, delay } => {
                            log.push(format!("{}:backoff {}", targets[0].id, delay));
                            system.restart_children(&targets);
                        }
                        _ => {}
                    }
                }
                Step::Started => log.push(format!("{}:started", pid.id)),
                Step::Restarting => log.push(format!("{}:restarting", pid.id)),
                Step::Stopped => log.push(format!("{}:stopped", pid.id)),
                Step::Terminated(t) => log.push(format!("{}:terminated {}", pid.id, t.who.unwrap().id)),
                Step::Handled => {}
                Step::Backoff { targets, delay } => {
                    log.push(format!("{}:backoff {}", targets[0].id, delay));
                    system.restart_children(&targets);
                }
            }
        }
        system.end_run(&pid);
    }
    log
}

fn of(log: &Vec<String>, name: &str) -> Vec<String> {
    let prefix = format!("{}:", name);
    log.iter().filter(|l| l.starts_with(&prefix)).map(|l| l[prefix.len()..].to_string()).collect()
}

#[test]
fn a_new_system_holds_the_event_stream_process() {
    let system = System::new();
    assert_eq!(system.get_address(), "nonhost");
    assert_eq!(system.get_id().len(), 36);
    assert!(system.get_process_registry().contains(&Pid::new("nonhost", "eventstream")));
    assert_eq!(system.get_process_registry().len(), 1);
    assert_eq!(system.get_event_stream().len(), 1);
    assert_eq!(system.get_guardians().len(), 0);
    assert_eq!(system.get_dead_letter().len(), 0);
    assert_eq!(system.get_events().len(), 0);
    assert_eq!(system.get_config().dispatcher_throughput, 300);
    assert!(system.new_local_pid("x") == Pid::new("nonhost", "x"));
    let other = System::new();
    assert!(system.get_id() != other.get_id());
}

#[test]
fn a_system_is_configured_by_its_options() {
    let system = System::new_config_options(vec![
        ConfigOption::with_dispatcher_throughput(7),
        ConfigOption::with_log_prefix("x".to_string()),
    ]);
    assert_eq!(system.get_config().dispatcher_throughput, 7);
    assert_eq!(system.get_config().log_prefix, "x");
    let mut config = Config::default();
    config.dead_letter_throttle_count = 4;
    let with_config = System::new_with_config(config);
    assert_eq!(with_config.get_config().dead_letter_throttle_count, 4);
    let named = System::with_id("fixed".to_string(), Config::default());
    assert_eq!(named.get_id(), "fixed");
}

#[test]
fn the_supervision_log_subscribes_to_the_event_bus() {
    let mut system = System::with_id("s".to_string(), Config::default());
    let first = subscribe_supervision(&mut system);
    let second = system.subscribe();
    assert_eq!(first.id, 1);
    assert_eq!(second.id, 2);
    assert_eq!(system.get_event_stream().len(), 3);
    assert!(system.unsubscribe(&first));
    assert!(!system.unsubscribe(&first));
    assert_eq!(system.get_event_stream().len(), 2);
}

#[test]
fn a_spawned_actor_is_registered_and_started() {
    let mut system = System::new();
    let pid = system.spawn_named(props(), "a", None).unwrap();
    assert!(pid == Pid::new("nonhost", "a"));
    let actor = system.get_actor(&pid).unwrap();
    assert!(actor.mailbox.state() == RunState::Scheduled);
    assert_eq!(actor.mailbox.system_len(), 1);
    assert_eq!(actor.mailbox.user_len(), 0);
    assert!(actor.context.get_self() == &pid);
    assert!(actor.context.get_parent().is_none());
    assert!(actor.context.get_children().is_empty());
    assert!(actor.context.get_message_handle().is_none());
    assert!(system.get_guardians().contains(&pid));
    assert_eq!(run(&mut system, 0), vec!["a:started"]);
    assert!(system.get_actor(&pid).unwrap().mailbox.state() == RunState::Idle);
}

#[test]
fn hooks_run_before_any_message_is_delivered() {
    let seen: Arc<Mutex<Vec<String>>> = Arc::new(Mutex::new(Vec::new()));
    let sink = seen.clone();
    let hook: Box<dyn Fn(Pid)> = Box::new(move |pid: Pid| sink.lock().unwrap().push(pid.id));
    let mut system = System::new();
    let with_hook: Props<Plain> = Props::from_producer_func_with_opts(0, vec![Props::with_on_init(vec![hook])]);
    system.spawn_named(with_hook, "hooked", None).unwrap();
    assert_eq!(*seen.lock().unwrap(), vec!["hooked"]);
}

#[test]
fn spawning_under_a_taken_name_changes_nothing() {
    let mut system = System::new();
    let first = system.spawn_named(props(), "a", None).unwrap();
    system.send_user_message(&first, text("one"));
    let ready_before = system.get_actor(&first).unwrap().mailbox.state();
    let seen: Arc<Mutex<Vec<String>>> = Arc::new(Mutex::new(Vec::new()));
    let sink = seen.clone();
    let hook: Box<dyn Fn(Pid)> = Box::new(move |pid: Pid| sink.lock().unwrap().push(pid.id));
    let again: Props<Plain> = Props::from_producer_func_with_opts(0, vec![Props::with_on_init(vec![hook])]);
    match system.spawn_named(again, "a", None) {
        Err(SpawnError::NameAlreadyExists(existing)) => assert!(existing == first),
        Ok(_) => panic!("the name was taken"),
    }
    assert!(seen.lock().unwrap().is_empty());
    let actor = system.get_actor(&first).unwrap();
    assert!(actor.mailbox.state() == ready_before);
    assert_eq!(actor.mailbox.system_len(), 1);
    assert_eq!(actor.mailbox.user_len(), 1);
    assert_eq!(system.get_process_registry().len(), 2);
    assert_eq!(system.get_guardians().len(), 1);
    // The mailbox was queued once, by the first spawn.
    assert!(system.next_scheduled() == Some(first));
    assert!(system.next_scheduled().is_none());
}

#[test]
fn the_event_stream_name_is_taken() {
    let mut system = System::new();
    assert!(matches!(
        system.spawn_named(props(), "eventstream", None),
        Err(SpawnError::NameAlreadyExists(_))
    ));
    system.send_user_message(&Pid::new("nonhost", "eventstream"), text("news"));
    let published = system.take_published();
    assert_eq!(published.len(), 1);
    assert!(system.take_published().is_empty());
}

#[test]
fn a_child_is_listed_by_its_parent() {
    let mut system = System::new();
    let parent = system.spawn_named(props(), "p", None).unwrap();
    let child = props().spawn(&mut system, "c", Some(&parent)).unwrap();
    let orphan = system.spawn_named(props(), "o", Some(&Pid::new("nonhost", "nobody"))).unwrap();
    assert!(system.get_actor(&child).unwrap().context.get_parent() == Some(&parent));
    assert!(system.get_actor(&parent).unwrap().context.get_children() == vec![child.clone()]);
    assert!(system.get_actor(&orphan).unwrap().context.get_parent().is_none());
    assert!(system.get_guardians().contains(&parent));
    assert!(system.get_guardians().contains(&orphan));
    assert!(!system.get_guardians().contains(&child));
}

#[test]
fn a_supplied_mailbox_keeps_what_it_holds() {
    let mut system = System::new();
    let mut mailbox = Mailbox::new();
    mailbox.post_user(text("early"));
    let pid = system.spawn_with_mailbox(props(), "m", None, mailbox).unwrap();
    assert_eq!(run(&mut system, 0), vec!["m:started", "m:receive early"]);
    assert!(system.get_actor(&pid).is_some());
}

#[test]
fn messages_are_received_in_the_order_sent() {
    let mut system = System::new();
    let pid = system.spawn_named(props(), "a", None).unwrap();
    for m in ["one", "two", "three"] {
        system.send_user_message(&pid, text(m));
    }
    assert_eq!(run(&mut system, 0), vec!["a:started", "a:receive one", "a:receive two", "a:receive three"]);
    assert!(system.get_actor(&pid).unwrap().context.get_message_handle().is_none());
}

#[test]
fn a_run_is_bounded_by_the_throughput_of_the_dispatcher() {
    let mut system = System::new();
    let slow: Props<Plain> = Props::from_producer_func_with_opts(0, vec![Props::with_dispatcher(Dispatcher::new(2))]);
    let pid = system.spawn_named(slow, "a", None).unwrap();
    for m in ["one", "two", "three"] {
        system.send_user_message(&pid, text(m));
    }
    let due = system.next_scheduled().unwrap();
    assert!(system.begin_run(&due));
    assert!(!system.begin_run(&due));
    assert!(matches!(system.poll(&due, 0), Step::Started));
    assert!(matches!(system.poll(&due, 0), Step::Receive));
    assert!(matches!(system.complete(&due, Ok(()), 0), Step::Handled));
    assert!(matches!(system.poll(&due, 0), Step::Done));
    assert!(system.end_run(&due));
    assert_eq!(system.get_actor(&pid).unwrap().mailbox.user_len(), 2);
    assert_eq!(run(&mut system, 0), vec!["a:receive two", "a:receive three"]);
}

#[test]
fn a_message_to_an_unknown_pid_is_a_dead_letter() {
    let mut system = System::new();
    let nobody = Pid::new("nonhost", "nobody");
    let sender = Pid::new("nonhost", "s");
    system.send_user_message(&nobody, text("lost"));
    system.send_user_message(
        &nobody,
        MessageHandle::Envelope(Box::new(MessageEnvelope::new(text("enveloped")).with_sender(sender.clone()))),
    );
    system.send_system_message(&Pid::new("elsewhere", "a"), SystemMessage::Stop);
    let letters = system.get_dead_letter();
    assert_eq!(letters.len(), 3);
    assert!(letters[0].pid == nobody);
    assert!(letters[0].sender.is_none());
    assert!(letters[1].sender == Some(sender));
    assert!(letters[2].message.is_system());
    assert_eq!(system.take_dead_letters().len(), 3);
    assert!(system.get_dead_letter().is_empty());
}

#[test]
fn one_for_one_restarts_three_times_and_then_stops() {
    let mut system = System::new();
    let parent = system
        .spawn_named(supervisor_props(SupervisorStrategy::one_for_one(3, 10 * SECOND)), "p", None)
        .unwrap();
    let a = system.spawn_named(props(), "a", Some(&parent)).unwrap();
    let sibling = system.spawn_named(props(), "b", Some(&parent)).unwrap();
    run(&mut system, 0);
    let mut log = Vec::new();
    for (i, at) in [0, SECOND / 2, SECOND, 3 * SECOND / 2].into_iter().enumerate() {
        system.send_user_message(&a, text(&format!("fail {}", i)));
        log.extend(run(&mut system, at));
    }
    assert_eq!(
        of(&log, "a"),
        vec![
            "receive fail 0",
            "restarting",
            "started",
            "receive fail 1",
            "restarting",
            "started",
            "receive fail 2",
            "restarting",
            "started",
            "receive fail 3",
            "stopped",
        ]
    );
    assert_eq!(of(&log, "p"), vec!["terminated a"]);
    assert!(of(&log, "b").is_empty());
    // The name is free, and the parent has forgotten the child.
    assert!(system.get_actor(&a).is_none());
    assert!(!system.get_process_registry().contains(&a));
    assert!(system.get_actor(&parent).unwrap().context.get_children() == vec![sibling.clone()]);
    assert!(system.get_actor(&sibling).is_some());
    // Each decision was published.
    let events = system.take_events();
    assert_eq!(events.len(), 4);
    assert!(events.iter().all(|e| e.child == a));
    assert!(events[0].directive == Directive::Restart);
    assert!(events[2].directive == Directive::Restart);
    assert!(events[3].directive == Directive::Stop);
    let mut reason = events.into_iter().next().unwrap().reason;
    assert_eq!(reason.take::<String>().unwrap(), "fail 0");
    // A message to the old pid is a dead letter.
    assert!(system.get_dead_letter().is_empty());
    system.send_user_message(&a, text("late"));
    assert_eq!(system.get_dead_letter().len(), 1);
    assert!(system.get_dead_letter()[0].pid == a);
}

#[test]
fn queued_messages_wait_for_the_directive() {
    let mut system = System::new();
    let parent = system
        .spawn_named(supervisor_props(SupervisorStrategy::one_for_one(3, 10 * SECOND)), "p", None)
        .unwrap();
    let a = system.spawn_named(props(), "a", Some(&parent)).unwrap();
    system.send_user_message(&a, text("fail now"));
    system.send_user_message(&a, text("after"));
    let due = system.next_scheduled().unwrap();
    assert!(due == parent);
    assert!(system.begin_run(&parent));
    assert!(matches!(system.poll(&parent, 0), Step::Started));
    assert!(matches!(system.poll(&parent, 0), Step::Done));
    assert!(!system.end_run(&parent));
    let due = system.next_scheduled().unwrap();
    assert!(due == a);
    assert!(system.begin_run(&a));
    assert!(matches!(system.poll(&a, 0), Step::Started));
    assert!(matches!(system.poll(&a, 0), Step::Receive));
    assert!(matches!(system.complete(&a, Err(ActorInnerError::from_str("boom")), 0), Step::Handled));
    // The run stops; the message behind the failed one stays where it is.
    assert!(matches!(system.poll(&a, 0), Step::Done));
    assert!(!system.end_run(&a));
    let actor = system.get_actor(&a).unwrap();
    assert!(actor.mailbox.is_suspended());
    assert_eq!(actor.mailbox.user_len(), 1);
    assert_eq!(actor.context.restart_stats.failure_times(), &vec![0]);
    assert_eq!(system.get_actor(&parent).unwrap().mailbox.system_len(), 1);
    // The parent decides; the child restarts and goes on with its queue.
    let log = run(&mut system, 0);
    assert_eq!(of(&log, "a"), vec!["restarting", "started", "receive after"]);
    assert!(!system.get_actor(&a).unwrap().mailbox.is_suspended());
}

#[test]
fn all_for_one_stops_every_child() {
    let mut system = System::new();
    let parent = system
        .spawn_named(supervisor_props(SupervisorStrategy::all_for_one(1, 10 * SECOND)), "p", None)
        .unwrap();
    let names = ["a", "b", "c"];
    let children: Vec<Pid> = names.iter().map(|n| system.spawn_named(props(), n, Some(&parent)).unwrap()).collect();
    run(&mut system, 0);
    system.send_user_message(&children[1], text("fail 1"));
    let first = run(&mut system, SECOND);
    for n in names {
        assert!(of(&first, n).contains(&"restarting".to_string()));
        assert!(of(&first, n).contains(&"started".to_string()));
    }
    system.send_user_message(&children[1], text("fail 2"));
    let second = run(&mut system, 2 * SECOND);
    for n in names {
        assert!(of(&second, n).contains(&"stopped".to_string()));
    }
    for child in &children {
        assert!(system.get_actor(child).is_none());
    }
    assert!(system.get_actor(&parent).unwrap().context.get_children().is_empty());
    assert!(system.get_actor(&parent).is_some());
}

#[test]
fn exponential_backoff_doubles_the_delay() {
    let mut system = System::new();
    let parent = system
        .spawn_named(supervisor_props(SupervisorStrategy::exponential_backoff(SECOND, 10 * MILLI)), "p", None)
        .unwrap();
    let b = system.spawn_named(props(), "b", Some(&parent)).unwrap();
    run(&mut system, 0);
    system.send_user_message(&b, text("fail 1"));
    let first = run(&mut system, 100 * MILLI);
    system.send_user_message(&b, text("fail 2"));
    let second = run(&mut system, 150 * MILLI);
    assert_eq!(of(&first, "b"), vec!["receive fail 1", format!("backoff {}", 10 * MILLI).as_str(), "restarting", "started"]);
    assert_eq!(of(&second, "b"), vec!["receive fail 2", format!("backoff {}", 20 * MILLI).as_str(), "restarting", "started"]);
    assert!(system.get_actor(&b).is_some());
    assert!(system.take_events().iter().all(|e| e.directive == Directive::Restart));
}

#[test]
fn the_guardian_supervises_top_level_actors() {
    let mut system = System::new();
    let guarded: Props<Plain> =
        Props::from_producer_func_with_opts(0, vec![Props::with_guardian(SupervisorStrategy::one_for_one(1, SECOND))]);
    let a = system.spawn_named(guarded, "a", None).unwrap();
    let other = system.spawn_named(props(), "other", None).unwrap();
    run(&mut system, 0);
    system.send_user_message(&a, text("fail 1"));
    let first = run(&mut system, 0);
    assert_eq!(of(&first, "a"), vec!["receive fail 1", "restarting", "started"]);
    system.send_user_message(&a, text("fail 2"));
    let second = run(&mut system, 1);
    assert_eq!(of(&second, "a"), vec!["receive fail 2", "stopped"]);
    assert!(system.get_actor(&a).is_none());
    assert!(!system.get_guardians().contains(&a));
    assert!(system.get_guardians().contains(&other));
    assert!(system.get_actor(&other).is_some());
}

#[test]
fn the_default_guardian_allows_ten_restarts() {
    let mut system = System::new();
    let a = system.spawn_named(props(), "a", None).unwrap();
    run(&mut system, 0);
    for i in 0..10u64 {
        system.send_user_message(&a, text("fail"));
        let log = run(&mut system, i);
        assert_eq!(of(&log, "a"), vec!["receive fail", "restarting", "started"]);
    }
    system.send_user_message(&a, text("fail"));
    assert_eq!(of(&run(&mut system, 10), "a"), vec!["receive fail", "stopped"]);
    assert!(system.get_actor(&a).is_none());
}

#[test]
fn an_escalation_goes_one_level_up() {
    let mut system = System::new();
    let top = system
        .spawn_named(supervisor_props(SupervisorStrategy::one_for_one(3, 10 * SECOND)), "top", None)
        .unwrap();
    let middle = system.spawn_named(props(), "middle", Some(&top)).unwrap();
    let leaf = system.spawn_named(props(), "leaf", Some(&middle)).unwrap();
    run(&mut system, 0);
    let failure = Failure::new(
        leaf.clone(),
        ActorInnerError::from_str("deep"),
        RestartStatistics::new(),
        text("the message"),
    );
    assert!(matches!(system.escalate_failure(&middle, failure, 5), Step::Handled));
    assert!(system.get_actor(&middle).unwrap().mailbox.is_suspended());
    let log = run(&mut system, 5);
    assert_eq!(of(&log, "middle"), vec!["restarting", "started"]);
    let events = system.take_events();
    assert_eq!(events.len(), 1);
    assert!(events[0].child == middle);
    let mut reason = events.into_iter().next().unwrap().reason;
    assert_eq!(reason.take::<String>().unwrap(), "deep");
    assert!(system.get_actor(&leaf).is_some());
}

#[test]
fn an_escalation_that_reaches_the_guardian_stops_the_subtree() {
    let mut system = System::new();
    let top = system.spawn_named(props(), "top", None).unwrap();
    let child = system.spawn_named(props(), "child", Some(&top)).unwrap();
    let bystander = system.spawn_named(props(), "bystander", None).unwrap();
    run(&mut system, 0);
    let failure =
        Failure::new(child.clone(), ActorInnerError::from_str("deep"), RestartStatistics::new(), text("m"));
    system.escalate_failure(&top, failure, 0);
    let log = run(&mut system, 0);
    assert_eq!(of(&log, "top"), vec!["stopped"]);
    assert_eq!(of(&log, "child"), vec!["stopped"]);
    assert!(system.get_actor(&top).is_none());
    assert!(system.get_actor(&child).is_none());
    assert!(system.get_actor(&bystander).is_some());
    let events = system.take_events();
    assert_eq!(events.len(), 1);
    assert!(events[0].directive == Directive::Stop);
}

#[test]
fn watchers_are_told_of_the_termination() {
    let mut system = System::new();
    let a = system.spawn_named(props(), "a", None).unwrap();
    let w = system.spawn_named(props(), "w", None).unwrap();
    let v = system.spawn_named(props(), "v", None).unwrap();
    system.send_system_message(&a, SystemMessage::Watch(w.clone()));
    system.send_system_message(&a, SystemMessage::Watch(w.clone()));
    system.send_system_message(&a, SystemMessage::Watch(v.clone()));
    system.send_system_message(&a, SystemMessage::Unwatch(v.clone()));
    run(&mut system, 0);
    assert_eq!(system.get_actor(&a).unwrap().context.watchers.len(), 1);
    system.stop_children(&vec![a.clone()]);
    let log = run(&mut system, 0);
    assert_eq!(of(&log, "a"), vec!["stopped"]);
    assert_eq!(of(&log, "w"), vec!["terminated a"]);
    assert!(of(&log, "v").is_empty());
    assert!(!system.get_guardians().contains(&a));
}

#[test]
fn resume_lets_the_actor_go_on_as_it_is() {
    let mut system = System::new();
    let parent = system.spawn_named(props(), "p", None).unwrap();
    let a = system.spawn_named(props(), "a", Some(&parent)).unwrap();
    run(&mut system, 0);
    system.send_user_message(&a, text("fail"));
    system.send_user_message(&a, text("next"));
    let due = system.next_scheduled().unwrap();
    assert!(system.begin_run(&due));
    assert!(matches!(system.poll(&due, 0), Step::Receive));
    system.complete(&due, Err(ActorInnerError::from_str("x")), 0);
    assert!(matches!(system.poll(&due, 0), Step::Done));
    system.end_run(&due);
    system.carry_out(Directive::Resume, &vec![a.clone()]);
    assert!(!system.get_actor(&a).unwrap().mailbox.is_suspended());
    let mut log = Vec::new();
    // Take the report off the parent by hand, so that only the resume acts.
    while let Some(pid) = system.next_scheduled() {
        if pid == parent {
            continue;
        }
        assert!(system.begin_run(&pid));
        while let Step::Receive = system.poll(&pid, 0) {
            log.push(system.get_actor(&pid).unwrap().context.get_message_handle().unwrap().to_user().unwrap().clone());
            system.complete(&pid, Ok(()), 0);
        }
        system.end_run(&pid);
    }
    assert_eq!(log, vec!["next"]);
    system.carry_out(Directive::Escalate, &vec![a.clone()]);
    assert!(system.get_actor(&a).is_some());
}

#[test]
fn a_report_without_a_current_message_changes_nothing() {
    let mut system = System::new();
    let a = system.spawn_named(props(), "a", None).unwrap();
    run(&mut system, 0);
    assert!(matches!(system.complete(&a, Err(ActorInnerError::from_str("x")), 0), Step::Handled));
    assert!(!system.get_actor(&a).unwrap().mailbox.is_suspended());
    assert!(system.get_events().is_empty());
    assert!(matches!(
        system.complete(&Pid::new("nonhost", "nobody"), Err(ActorInnerError::from_str("x")), 0),
        Step::Handled
    ));
    assert!(matches!(system.poll(&Pid::new("nonhost", "nobody"), 0), Step::Done));
    assert!(!system.begin_run(&Pid::new("nonhost", "nobody")));
    assert!(!system.end_run(&Pid::new("nonhost", "eventstream")));
}

#[test]
fn a_liveness_probe_is_answered_to_its_sender() {
    let mut system = System::new();
    let a = system.spawn_named(props(), "a", None).unwrap();
    let asker = system.spawn_named(props(), "asker", None).unwrap();
    run(&mut system, 0);
    let probe = MessageHandle::Envelope(Box::new(
        MessageEnvelope::new(MessageHandle::Touch(nexus_actor::messages::Touch {})).with_sender(asker.clone()),
    ));
    system.send_user_message(&a, probe);
    system.send_user_message(&a, MessageHandle::Touch(nexus_actor::messages::Touch {}));
    let due = system.next_scheduled().unwrap();
    assert!(due == a);
    assert!(system.begin_run(&a));
    assert!(matches!(system.poll(&a, 0), Step::Handled));
    assert!(matches!(system.poll(&a, 0), Step::Handled));
    assert!(matches!(system.poll(&a, 0), Step::Done));
    system.end_run(&a);
    let due = system.next_scheduled().unwrap();
    assert!(due == asker);
    assert!(system.begin_run(&asker));
    assert!(matches!(system.poll(&asker, 0), Step::Receive));
    match system.get_actor(&asker).unwrap().context.get_message_handle().unwrap() {
        MessageHandle::Touched(t) => assert!(t.who == Some(a.clone())),
        _ => panic!("expected the answer to the probe"),
    }
}

#[test]
fn the_system_dispatcher_bounds_runs_without_a_dispatcher_of_their_own() {
    let mut system = System::new_config_options(vec![ConfigOption::with_dispatcher_throughput(1)]);
    let a = system.spawn_named(props(), "a", None).unwrap();
    system.send_user_message(&a, text("one"));
    let due = system.next_scheduled().unwrap();
    assert!(system.begin_run(&due));
    assert!(matches!(system.poll(&due, 0), Step::Started));
    // The one envelope of the budget is used up.
    assert!(matches!(system.poll(&due, 0), Step::Done));
    assert!(system.end_run(&due));
}

#[test]
fn a_copy_of_a_failure_report_shares_the_reason() {
    let mut stats = RestartStatistics::new();
    stats.fail_at(3);
    let report = Failure::new(Pid::new("nonhost", "a"), ActorInnerError::from_str("deep"), stats, text("m"));
    let mut copy = report.clone();
    assert!(copy.who == report.who);
    assert_eq!(copy.restart_stats.failure_times(), &vec![3]);
    assert!(copy.message == text("m"));
    assert!(copy.reason.same_error(&report.reason));
    // While both hold the reason neither can take it.
    assert!(copy.reason.take::<String>().is_err());
    drop(report);
    assert_eq!(copy.reason.take::<String>().unwrap(), "deep");
}

#[test]
fn the_name_of_a_stopped_actor_is_free_again() {
    let mut system = System::new();
    let parent = system
        .spawn_named(supervisor_props(SupervisorStrategy::one_for_one(0, 10 * SECOND)), "p", None)
        .unwrap();
    let a = system.spawn_named(props(), "a", Some(&parent)).unwrap();
    run(&mut system, 0);
    system.send_user_message(&a, text("fail"));
    let log = run(&mut system, 0);
    assert_eq!(of(&log, "a"), vec!["receive fail", "stopped"]);
    assert!(system.get_process_registry().get(&a).is_none());
    let again = system.spawn_named(props(), "a", Some(&parent)).unwrap();
    assert!(again == a);
    assert_eq!(of(&run(&mut system, 0), "a"), vec!["started"]);
}
