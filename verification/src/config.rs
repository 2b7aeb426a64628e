//! System-wide configuration: plain values applied once when a system is built.

use vstd::prelude::*;

verus! {

/// Default number of envelopes one mailbox run may drain.
pub const DEFAULT_DISPATCHER_THROUGHPUT: usize = 300;

/// Default dead-letter throttle interval: one second, in nanoseconds.
pub const DEFAULT_DEAD_LETTER_THROTTLE_INTERVAL: u64 = 1_000_000_000;

/// Default number of dead letters logged per throttle interval.
pub const DEFAULT_DEAD_LETTER_THROTTLE_COUNT: usize = 10;

/// Schedules mailbox runs onto worker capacity. The library decides when a
/// mailbox has to run and how much one run may drain; the worker pool that
/// executes the run lives outside.
#[derive(Clone, Copy, Debug, PartialEq, Eq, Structural)]
pub struct Dispatcher {
    /// Maximum number of envelopes drained per run.
    pub throughput: usize,
}

impl Dispatcher {
    pub fn new(throughput: usize) -> (d: Self)
        ensures
            d.throughput == throughput,
    {
        Dispatcher { throughput }
    }

    pub fn throughput(&self) -> (t: usize)
        ensures
            t == self.throughput,
    {
        self.throughput
    }
}

/// The configuration surface of an actor system. Durations are nanoseconds.
#[derive(Debug)]
pub struct Config {
    pub log_prefix: String,
    pub system_dispatcher: Option<Dispatcher>,
    pub dispatcher_throughput: usize,
    pub dead_letter_throttle_interval: u64,
    pub dead_letter_throttle_count: usize,
    pub dead_letter_request_logging: bool,
    pub developer_supervision_logging: bool,
}

/// What a `Config` holds, with text as a sequence of characters.
pub struct ConfigView {
    pub log_prefix: Seq<char>,
    pub system_dispatcher: Option<Dispatcher>,
    pub dispatcher_throughput: usize,
    pub dead_letter_throttle_interval: u64,
    pub dead_letter_throttle_count: usize,
    pub dead_letter_request_logging: bool,
    pub developer_supervision_logging: bool,
}

impl View for Config {
    type V = ConfigView;

    open spec fn view(&self) -> ConfigView {
        ConfigView {
            log_prefix: self.log_prefix@,
            system_dispatcher: self.system_dispatcher,
            dispatcher_throughput: self.dispatcher_throughput,
            dead_letter_throttle_interval: self.dead_letter_throttle_interval,
            dead_letter_throttle_count: self.dead_letter_throttle_count,
            dead_letter_request_logging: self.dead_letter_request_logging,
            developer_supervision_logging: self.developer_supervision_logging,
        }
    }
}

/// The configuration every system starts from.
pub open spec fn default_config() -> ConfigView {
    ConfigView {
        log_prefix: Seq::<char>::empty(),
        system_dispatcher: None,
        dispatcher_throughput: DEFAULT_DISPATCHER_THROUGHPUT,
        dead_letter_throttle_interval: DEFAULT_DEAD_LETTER_THROTTLE_INTERVAL,
        dead_letter_throttle_count: DEFAULT_DEAD_LETTER_THROTTLE_COUNT,
        dead_letter_request_logging: false,
        developer_supervision_logging: false,
    }
}

impl Default for Config {
    fn default() -> (c: Self)
        ensures
            c@ == default_config(),
    {
        Config {
            log_prefix: String::new(),
            system_dispatcher: None,
            dispatcher_throughput: DEFAULT_DISPATCHER_THROUGHPUT,
            dead_letter_throttle_interval: DEFAULT_DEAD_LETTER_THROTTLE_INTERVAL,
            dead_letter_throttle_count: DEFAULT_DEAD_LETTER_THROTTLE_COUNT,
            dead_letter_request_logging: false,
            developer_supervision_logging: false,
        }
    }
}

impl Clone for Config {
    fn clone(&self) -> (c: Self)
        ensures
            c@ == self@,
    {
        Config {
            log_prefix: self.log_prefix.clone(),
            system_dispatcher: self.system_dispatcher,
            dispatcher_throughput: self.dispatcher_throughput,
            dead_letter_throttle_interval: self.dead_letter_throttle_interval,
            dead_letter_throttle_count: self.dead_letter_throttle_count,
            dead_letter_request_logging: self.dead_letter_request_logging,
            developer_supervision_logging: self.developer_supervision_logging,
        }
    }
}

impl Config {
    /// The dispatcher that system-level mailboxes run on: the configured one,
    /// else one with the configured throughput.
    pub fn dispatcher(&self) -> (d: Dispatcher)
        ensures
            d == self@.dispatcher(),
    {
        match self.system_dispatcher {
            Some(d) => d,
            None => Dispatcher { throughput: self.dispatcher_throughput },
        }
    }
}

impl ConfigView {
    pub open spec fn dispatcher(self) -> Dispatcher {
        match self.system_dispatcher {
            Some(d) => d,
            None => Dispatcher { throughput: self.dispatcher_throughput },
        }
    }
}

/// One setting of the configuration surface.
#[derive(Debug)]
pub enum ConfigOption {
    SetLogPrefix(String),
    SetSystemDispatcher(Dispatcher),
    SetDispatcherThroughput(usize),
    SetDeadLetterThrottleInterval(u64),
    SetDeadLetterThrottleCount(usize),
    SetDeadLetterRequestLogging(bool),
}

/// A `ConfigOption` with text as a sequence of characters.
pub enum ConfigOptionView {
    SetLogPrefix(Seq<char>),
    SetSystemDispatcher(Dispatcher),
    SetDispatcherThroughput(usize),
    SetDeadLetterThrottleInterval(u64),
    SetDeadLetterThrottleCount(usize),
    SetDeadLetterRequestLogging(bool),
}

impl View for ConfigOption {
    type V = ConfigOptionView;

    open spec fn view(&self) -> ConfigOptionView {
        match self {
            ConfigOption::SetLogPrefix(p) => ConfigOptionView::SetLogPrefix(p@),
            ConfigOption::SetSystemDispatcher(d) => ConfigOptionView::SetSystemDispatcher(*d),
            ConfigOption::SetDispatcherThroughput(t) => ConfigOptionView::SetDispatcherThroughput(*t),
            ConfigOption::SetDeadLetterThrottleInterval(i) => ConfigOptionView::SetDeadLetterThrottleInterval(*i),
            ConfigOption::SetDeadLetterThrottleCount(c) => ConfigOptionView::SetDeadLetterThrottleCount(*c),
            ConfigOption::SetDeadLetterRequestLogging(e) => ConfigOptionView::SetDeadLetterRequestLogging(*e),
        }
    }
}

/// The configuration after one option: the option's field is replaced, every
/// other field is kept.
pub open spec fn apply_option(config: ConfigView, option: ConfigOptionView) -> ConfigView {
    match option {
        ConfigOptionView::SetLogPrefix(p) => ConfigView { log_prefix: p, ..config },
        ConfigOptionView::SetSystemDispatcher(d) => ConfigView { system_dispatcher: Some(d), ..config },
        ConfigOptionView::SetDispatcherThroughput(t) => ConfigView { dispatcher_throughput: t, ..config },
        ConfigOptionView::SetDeadLetterThrottleInterval(i) => ConfigView {
            dead_letter_throttle_interval: i,
            ..config
        },
        ConfigOptionView::SetDeadLetterThrottleCount(c) => ConfigView { dead_letter_throttle_count: c, ..config },
        ConfigOptionView::SetDeadLetterRequestLogging(e) => ConfigView {
            dead_letter_request_logging: e,
            ..config
        },
    }
}

/// The configuration after the first `n` options, applied left to right.
pub open spec fn apply_options(config: ConfigView, options: Seq<ConfigOption>, n: int) -> ConfigView
    decreases n,
{
    if n <= 0 {
        config
    } else {
        apply_option(apply_options(config, options, n - 1), options[n - 1]@)
    }
}

impl ConfigOption {
    /// Writes this option into `config`.
    pub fn apply(&self, config: &mut Config)
        ensures
            final(config)@ == apply_option(old(config)@, self@),
    {
        match self {
            ConfigOption::SetLogPrefix(prefix) => {
                config.log_prefix = prefix.clone();
            },
            ConfigOption::SetSystemDispatcher(dispatcher) => {
                config.system_dispatcher = Some(*dispatcher);
            },
            ConfigOption::SetDispatcherThroughput(throughput) => {
                config.dispatcher_throughput = *throughput;
            },
            ConfigOption::SetDeadLetterThrottleInterval(interval) => {
                config.dead_letter_throttle_interval = *interval;
            },
            ConfigOption::SetDeadLetterThrottleCount(count) => {
                config.dead_letter_throttle_count = *count;
            },
            ConfigOption::SetDeadLetterRequestLogging(enabled) => {
                config.dead_letter_request_logging = *enabled;
            },
        }
    }

    pub fn with_log_prefix(prefix: String) -> (o: ConfigOption)
        ensures
            o@ == ConfigOptionView::SetLogPrefix(prefix@),
    {
        ConfigOption::SetLogPrefix(prefix)
    }

    pub fn with_dispatcher_throughput(throughput: usize) -> (o: ConfigOption)
        ensures
            o@ == ConfigOptionView::SetDispatcherThroughput(throughput),
    {
        ConfigOption::SetDispatcherThroughput(throughput)
    }

    pub fn with_dead_letter_throttle_interval(duration: u64) -> (o: ConfigOption)
        ensures
            o@ == ConfigOptionView::SetDeadLetterThrottleInterval(duration),
    {
        ConfigOption::SetDeadLetterThrottleInterval(duration)
    }

    pub fn with_dead_letter_throttle_count(count: usize) -> (o: ConfigOption)
        ensures
            o@ == ConfigOptionView::SetDeadLetterThrottleCount(count),
    {
        ConfigOption::SetDeadLetterThrottleCount(count)
    }

    pub fn with_dead_letter_request_logging(enabled: bool) -> (o: ConfigOption)
        ensures
            o@ == ConfigOptionView::SetDeadLetterRequestLogging(enabled),
    {
        ConfigOption::SetDeadLetterRequestLogging(enabled)
    }
}

/// Builds a configuration: the defaults, then every option from left to right,
/// so that a later option overrides an earlier one for the same field.
pub fn configure(options: &Vec<ConfigOption>) -> (config: Config)
    ensures
        config@ == apply_options(default_config(), options@, options@.len() as int),
{
    let mut config = Config::default();
    let mut i: usize = 0;
    while i < options.len()
        invariant
            i <= options.len(),
            config@ == apply_options(default_config(), options@, i as int),
        decreases options.len() - i,
    {
        options[i].apply(&mut config);
        i = i + 1;
    }
    config
}

} // verus!
