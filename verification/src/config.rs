//! System configuration.
//!
//! An [`ActorSystemConfig`] is a snapshot consumed once when a system is
//! built and never mutated afterward. The builder sets one option at a
//! time and leaves every other field alone, which each setter's contract
//! states exactly.

use vstd::prelude::*;

verus! {

/// Relies on `num_cpus::get`: the number of logical processors available
/// to this process, which its documentation promises is at least one.
#[verifier::external_body]
fn logical_cpus() -> (r: usize)
    ensures
        r >= 1,
{
    num_cpus::get()
}

/// The host locator of an actor with no remote host.
pub fn no_host() -> (r: String)
    ensures
        r@ == "nohost"@,
{
    String::from_str("nohost")
}

/// The reserved name under which a client-only system registers.
pub fn client_marker() -> (r: String)
    ensures
        r@ == "$client"@,
{
    String::from_str("$client")
}

/// Configuration of one actor system instance.
pub struct ActorSystemConfig {
    /// Diagnostic label of the system.
    pub name: String,
    /// Worker threads of the underlying runtime; defaults to the number of
    /// logical processors.
    pub worker_threads: usize,
    /// Host name or address of the system; `"nohost"` when none is set.
    pub host: String,
    /// Listening port; `0` lets the host pick one.
    pub port: u16,
    /// Time frame, in milliseconds, over which duplicate dead-letter log
    /// entries are throttled.
    pub dead_letter_throttle_interval_ms: u64,
    /// How many dead letters within one interval trigger throttling.
    pub dead_letter_throttle_count: usize,
    /// Log a dead letter when a request misses its target actor.
    pub dead_letter_request_logging: bool,
    /// Log actor supervision events, for development.
    pub developer_supervision_logging: bool,
    /// Collect metrics for export.
    pub metrics_enabled: bool,
}

/// The defaults every field except `name`, `worker_threads` and `host`
/// takes, shared by [`ActorSystemConfig::default`] and
/// [`ActorSystemConfigBuilder::new`].
pub open spec fn spec_default_rest(c: ActorSystemConfig) -> bool {
    c.port == 0 && c.dead_letter_throttle_interval_ms == 1000 && c.dead_letter_throttle_count == 10
        && c.dead_letter_request_logging && !c.developer_supervision_logging && !c.metrics_enabled
}

impl Default for ActorSystemConfig {
    /// The default configuration: named `local`, one worker per logical
    /// processor, no remote host, one-second dead-letter throttling of ten
    /// letters, request dead letters logged.
    fn default() -> (r: ActorSystemConfig)
        ensures
            r.name@ == "local"@,
            r.worker_threads >= 1,
            r.host@ == "nohost"@,
            spec_default_rest(r),
    {
        ActorSystemConfig {
            name: String::from_str("local"),
            worker_threads: logical_cpus(),
            host: no_host(),
            port: 0,
            dead_letter_throttle_interval_ms: 1000,
            dead_letter_throttle_count: 10,
            dead_letter_request_logging: true,
            developer_supervision_logging: false,
            metrics_enabled: false,
        }
    }
}

impl ActorSystemConfig {
    /// Start building a configuration from the defaults.
    pub fn builder() -> (r: ActorSystemConfigBuilder)
        ensures
            r.spec_config().name@ == "local"@,
            r.spec_config().worker_threads >= 1,
            r.spec_config().host@ == "nohost"@,
            spec_default_rest(r.spec_config()),
    {
        ActorSystemConfigBuilder::new()
    }
}

/// Builds an [`ActorSystemConfig`] one option at a time.
pub struct ActorSystemConfigBuilder {
    config: ActorSystemConfig,
}

impl ActorSystemConfigBuilder {
    /// The configuration as accumulated so far.
    pub closed spec fn spec_config(&self) -> ActorSystemConfig {
        self.config
    }
}

/// The fields of `a` other than `name` equal those of `b`.
pub open spec fn same_but_name(a: ActorSystemConfig, b: ActorSystemConfig) -> bool {
    a.worker_threads == b.worker_threads && a.host == b.host && a.port == b.port
        && a.dead_letter_throttle_interval_ms == b.dead_letter_throttle_interval_ms
        && a.dead_letter_throttle_count == b.dead_letter_throttle_count
        && a.dead_letter_request_logging == b.dead_letter_request_logging
        && a.developer_supervision_logging == b.developer_supervision_logging
        && a.metrics_enabled == b.metrics_enabled
}

/// The fields of `a` other than `worker_threads` equal those of `b`.
pub open spec fn same_but_workers(a: ActorSystemConfig, b: ActorSystemConfig) -> bool {
    a.name == b.name && a.host == b.host && a.port == b.port
        && a.dead_letter_throttle_interval_ms == b.dead_letter_throttle_interval_ms
        && a.dead_letter_throttle_count == b.dead_letter_throttle_count
        && a.dead_letter_request_logging == b.dead_letter_request_logging
        && a.developer_supervision_logging == b.developer_supervision_logging
        && a.metrics_enabled == b.metrics_enabled
}

/// The fields of `a` other than `host` equal those of `b`.
pub open spec fn same_but_host(a: ActorSystemConfig, b: ActorSystemConfig) -> bool {
    a.name == b.name && a.worker_threads == b.worker_threads && a.port == b.port
        && a.dead_letter_throttle_interval_ms == b.dead_letter_throttle_interval_ms
        && a.dead_letter_throttle_count == b.dead_letter_throttle_count
        && a.dead_letter_request_logging == b.dead_letter_request_logging
        && a.developer_supervision_logging == b.developer_supervision_logging
        && a.metrics_enabled == b.metrics_enabled
}

/// The fields of `a` other than `port` equal those of `b`.
pub open spec fn same_but_port(a: ActorSystemConfig, b: ActorSystemConfig) -> bool {
    a.name == b.name && a.worker_threads == b.worker_threads && a.host == b.host
        && a.dead_letter_throttle_interval_ms == b.dead_letter_throttle_interval_ms
        && a.dead_letter_throttle_count == b.dead_letter_throttle_count
        && a.dead_letter_request_logging == b.dead_letter_request_logging
        && a.developer_supervision_logging == b.developer_supervision_logging
        && a.metrics_enabled == b.metrics_enabled
}

impl ActorSystemConfigBuilder {
    /// A builder holding the default configuration.
    pub fn new() -> (r: ActorSystemConfigBuilder)
        ensures
            r.spec_config().name@ == "local"@,
            r.spec_config().worker_threads >= 1,
            r.spec_config().host@ == "nohost"@,
            spec_default_rest(r.spec_config()),
    {
        ActorSystemConfigBuilder { config: ActorSystemConfig::default() }
    }

    /// Set the system's diagnostic name.
    pub fn with_name(self, name: &str) -> (r: ActorSystemConfigBuilder)
        ensures
            r.spec_config().name@ == name@,
            same_but_name(r.spec_config(), self.spec_config()),
    {
        let mut config = self.config;
        config.name = String::from_str(name);
        ActorSystemConfigBuilder { config }
    }

    /// Set the worker-thread count of the underlying runtime.
    pub fn with_worker_threads(self, worker_threads: usize) -> (r: ActorSystemConfigBuilder)
        ensures
            r.spec_config().worker_threads == worker_threads,
            same_but_workers(r.spec_config(), self.spec_config()),
    {
        let mut config = self.config;
        config.worker_threads = worker_threads;
        ActorSystemConfigBuilder { config }
    }

    /// Set the system's host name or address.
    pub fn with_host(self, host: &str) -> (r: ActorSystemConfigBuilder)
        ensures
            r.spec_config().host@ == host@,
            same_but_host(r.spec_config(), self.spec_config()),
    {
        let mut config = self.config;
        config.host = String::from_str(host);
        ActorSystemConfigBuilder { config }
    }

    /// Set the port to listen on.
    pub fn with_port(self, port: u16) -> (r: ActorSystemConfigBuilder)
        ensures
            r.spec_config().port == port,
            same_but_port(r.spec_config(), self.spec_config()),
    {
        let mut config = self.config;
        config.port = port;
        ActorSystemConfigBuilder { config }
    }

    /// The configuration as built so far.
    pub fn build(self) -> (r: ActorSystemConfig)
        ensures
            r == self.spec_config(),
    {
        self.config
    }
}

impl Default for ActorSystemConfigBuilder {
    /// The same builder [`ActorSystemConfigBuilder::new`] returns.
    fn default() -> (r: ActorSystemConfigBuilder)
        ensures
            r.spec_config().name@ == "local"@,
            r.spec_config().worker_threads >= 1,
            r.spec_config().host@ == "nohost"@,
            spec_default_rest(r.spec_config()),
    {
        ActorSystemConfigBuilder::new()
    }
}

} // verus!
