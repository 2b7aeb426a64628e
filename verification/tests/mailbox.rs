use nexus_actor::mailbox::{Delivery, Mailbox, RunState};

fn user(d: Option<Delivery<u32>>) -> u32 {
    match d {
        Some(Delivery::User(m)) => m,
        _ => panic!("expected a user message"),
    }
}

fn system(d: Option<Delivery<u32>>) -> u32 {
    match d {
        Some(Delivery::System(m)) => m,
        _ => panic!("expected a system message"),
    }
}

fn started() -> Mailbox<u32> {
    let mut mailbox = Mailbox::new();
    assert!(!mailbox.start());
    assert!(mailbox.state() == RunState::Idle);
    mailbox
}

#[test]
fn a_new_mailbox_is_not_started() {
    let mut mailbox: Mailbox<u32> = Mailbox::new();
    assert!(mailbox.state() == RunState::Stopped);
    assert!(!mailbox.is_suspended());
    // Posting to it enqueues without scheduling.
    assert!(!mailbox.post_user(1));
    assert!(!mailbox.post_system(2));
    assert!(mailbox.state() == RunState::Stopped);
    assert_eq!(mailbox.user_len(), 1);
    assert_eq!(mailbox.system_len(), 1);
    // Starting it schedules it, because messages wait.
    assert!(mailbox.start());
    assert!(mailbox.state() == RunState::Scheduled);
    // Starting again changes nothing.
    assert!(!mailbox.start());
}

#[test]
fn only_the_post_to_an_idle_mailbox_schedules() {
    let mut mailbox = started();
    assert!(mailbox.post_user(1));
    assert!(mailbox.state() == RunState::Scheduled);
    assert!(!mailbox.post_user(2));
    assert!(!mailbox.post_system(3));
    assert!(mailbox.begin_run(10));
    assert!(!mailbox.post_user(4));
    assert!(mailbox.state() == RunState::Running);
}

#[test]
fn delivery_order_is_enqueue_order() {
    let mut mailbox = started();
    for m in [5, 3, 9, 1, 7] {
        mailbox.post_user(m);
    }
    assert!(mailbox.begin_run(100));
    let mut seen = Vec::new();
    while let Some(d) = mailbox.next() {
        seen.push(user(Some(d)));
    }
    assert_eq!(seen, vec![5, 3, 9, 1, 7]);
    assert!(!mailbox.end_run());
    assert!(mailbox.state() == RunState::Idle);
}

#[test]
fn system_lane_is_drained_first() {
    let mut mailbox = started();
    mailbox.post_user(1);
    mailbox.post_user(2);
    mailbox.post_system(100);
    mailbox.post_system(101);
    assert!(mailbox.begin_run(10));
    assert_eq!(system(mailbox.next()), 100);
    assert_eq!(system(mailbox.next()), 101);
    assert_eq!(user(mailbox.next()), 1);
    // A system message that arrives during the run overtakes.
    mailbox.post_system(102);
    assert_eq!(system(mailbox.next()), 102);
    assert_eq!(user(mailbox.next()), 2);
    assert!(mailbox.next().is_none());
}

#[test]
fn a_run_takes_no_more_than_its_throughput() {
    let mut mailbox = started();
    for m in 0..10 {
        mailbox.post_user(m);
    }
    assert!(mailbox.begin_run(3));
    assert_eq!(user(mailbox.next()), 0);
    assert_eq!(user(mailbox.next()), 1);
    assert_eq!(user(mailbox.next()), 2);
    assert!(mailbox.next().is_none());
    // Work is left: the mailbox is rescheduled.
    assert!(mailbox.end_run());
    assert!(mailbox.state() == RunState::Scheduled);
    assert!(mailbox.begin_run(300));
    let mut rest = Vec::new();
    while let Some(d) = mailbox.next() {
        rest.push(user(Some(d)));
    }
    assert_eq!(rest, vec![3, 4, 5, 6, 7, 8, 9]);
    assert!(!mailbox.end_run());
}

#[test]
fn system_messages_use_up_the_budget_but_are_all_drained() {
    let mut mailbox = started();
    for m in 0..4 {
        mailbox.post_system(m);
    }
    mailbox.post_user(50);
    mailbox.post_user(51);
    assert!(mailbox.begin_run(5));
    for m in 0..4 {
        assert_eq!(system(mailbox.next()), m);
    }
    assert_eq!(user(mailbox.next()), 50);
    assert!(mailbox.next().is_none());
    assert!(mailbox.end_run());

    let mut other = started();
    for m in 0..4 {
        other.post_system(m);
    }
    other.post_user(50);
    assert!(other.begin_run(2));
    for m in 0..4 {
        assert_eq!(system(other.next()), m);
    }
    assert!(other.next().is_none());
}

#[test]
fn at_most_one_run_at_a_time() {
    let mut mailbox = started();
    mailbox.post_user(1);
    assert!(mailbox.begin_run(10));
    assert!(!mailbox.begin_run(10));
    mailbox.post_user(2);
    mailbox.post_system(3);
    assert!(!mailbox.begin_run(10));
    assert!(!mailbox.start());
    assert!(!mailbox.begin_run(10));
    assert!(mailbox.end_run());
    assert!(mailbox.begin_run(10));
    assert!(!mailbox.begin_run(10));
}

#[test]
fn no_run_begins_for_a_mailbox_that_is_not_scheduled() {
    let mut mailbox = started();
    assert!(!mailbox.begin_run(10));
    assert!(mailbox.next().is_none());
    assert!(!mailbox.end_run());
    assert!(mailbox.state() == RunState::Idle);
}

#[test]
fn a_suspended_mailbox_withholds_the_user_lane() {
    let mut mailbox = started();
    mailbox.post_user(1);
    mailbox.post_user(2);
    assert!(mailbox.begin_run(10));
    assert_eq!(user(mailbox.next()), 1);
    mailbox.suspend();
    assert!(mailbox.is_suspended());
    assert!(mailbox.next().is_none());
    mailbox.post_system(9);
    assert_eq!(system(mailbox.next()), 9);
    assert!(mailbox.next().is_none());
    // Only user messages are left and they are withheld: no reschedule.
    assert!(!mailbox.end_run());
    assert!(mailbox.state() == RunState::Idle);
    assert_eq!(mailbox.user_len(), 1);
    // Resuming schedules the mailbox, since a user message waits.
    assert!(mailbox.resume());
    assert!(mailbox.begin_run(10));
    assert_eq!(user(mailbox.next()), 2);
}

#[test]
fn resume_of_an_empty_mailbox_does_not_schedule() {
    let mut mailbox = started();
    mailbox.suspend();
    assert!(!mailbox.resume());
    assert!(mailbox.state() == RunState::Idle);
}

#[test]
fn stop_is_observed_at_the_next_step_of_a_run() {
    let mut mailbox = started();
    mailbox.post_user(1);
    mailbox.post_user(2);
    assert!(mailbox.begin_run(10));
    assert_eq!(user(mailbox.next()), 1);
    mailbox.stop();
    assert!(mailbox.state() == RunState::Running);
    assert!(mailbox.next().is_none());
    assert!(!mailbox.end_run());
    assert!(mailbox.state() == RunState::Stopped);
    assert_eq!(mailbox.user_len(), 1);
    assert!(!mailbox.post_user(3));
    assert!(!mailbox.begin_run(10));
}

#[test]
fn stop_outside_a_run_is_immediate() {
    let mut mailbox = started();
    mailbox.post_user(1);
    mailbox.stop();
    assert!(mailbox.state() == RunState::Stopped);
    assert!(!mailbox.begin_run(10));
}
