use nexus_actor::config::{configure, Config, ConfigOption, Dispatcher};

#[test]
fn defaults() {
    let config = Config::default();
    assert_eq!(config.log_prefix, "");
    assert_eq!(config.dispatcher_throughput, 300);
    assert_eq!(config.dead_letter_throttle_interval, 1_000_000_000);
    assert_eq!(config.dead_letter_throttle_count, 10);
    assert!(!config.dead_letter_request_logging);
    assert!(!config.developer_supervision_logging);
    assert!(config.system_dispatcher.is_none());
    assert!(config.dispatcher() == Dispatcher::new(300));
}

#[test]
fn each_option_sets_its_field_and_no_other() {
    let mut config = Config::default();
    ConfigOption::SetLogPrefix("sys".to_string()).apply(&mut config);
    assert_eq!(config.log_prefix, "sys");
    assert_eq!(config.dispatcher_throughput, 300);
    ConfigOption::SetDispatcherThroughput(5).apply(&mut config);
    assert_eq!(config.dispatcher_throughput, 5);
    assert_eq!(config.log_prefix, "sys");
    ConfigOption::with_dead_letter_throttle_interval(7).apply(&mut config);
    assert_eq!(config.dead_letter_throttle_interval, 7);
    ConfigOption::with_dead_letter_throttle_count(3).apply(&mut config);
    assert_eq!(config.dead_letter_throttle_count, 3);
    ConfigOption::with_dead_letter_request_logging(true).apply(&mut config);
    assert!(config.dead_letter_request_logging);
    assert!(!config.developer_supervision_logging);
    ConfigOption::SetSystemDispatcher(Dispatcher::new(9)).apply(&mut config);
    assert!(config.system_dispatcher == Some(Dispatcher::new(9)));
    assert_eq!(config.dispatcher().throughput(), 9);
    assert_eq!(config.dispatcher_throughput, 5);
    let copy = config.clone();
    assert_eq!(copy.log_prefix, "sys");
    assert_eq!(copy.dead_letter_throttle_count, 3);
}

#[test]
fn config_options_apply_from_left_to_right() {
    let config = configure(&vec![
        ConfigOption::with_dispatcher_throughput(1),
        ConfigOption::with_log_prefix("a".to_string()),
        ConfigOption::with_dispatcher_throughput(2),
        ConfigOption::with_log_prefix("b".to_string()),
    ]);
    assert_eq!(config.dispatcher_throughput, 2);
    assert_eq!(config.log_prefix, "b");
    assert_eq!(config.dead_letter_throttle_count, 10);
    let untouched = configure(&vec![]);
    assert_eq!(untouched.dispatcher_throughput, 300);
}
