//! Batch and request settings shared by the sinks.

use vstd::prelude::*;

verus! {

/// The kind of events a sink accepts.
#[derive(Clone, Copy, Debug, PartialEq, Eq)]
pub enum DataType {
    Any,
    Log,
    Metric,
}

/// Batching limits as a user writes them; an absent value means "use the
/// sink's default".
#[derive(Clone, Copy, Debug)]
pub struct BatchConfig {
    pub max_bytes: Option<usize>,
    pub max_events: Option<usize>,
    pub timeout_secs: Option<u64>,
}

impl Default for BatchConfig {
    fn default() -> (res: Self)
        ensures
            res.max_bytes is None,
            res.max_events is None,
            res.timeout_secs is None,
    {
        BatchConfig { max_bytes: None, max_events: None, timeout_secs: None }
    }
}

/// Batching limits that a sink settled on.
#[derive(Clone, Copy, Debug)]
pub struct BatchSettings {
    pub bytes: usize,
    pub events: usize,
    pub timeout_secs: u64,
}

/// The settings that `config` yields over the sink's `defaults`: each limit
/// the user set wins, each one left unset keeps the default.
pub open spec fn spec_parse_batch(defaults: BatchSettings, config: BatchConfig) -> BatchSettings {
    BatchSettings {
        bytes: config.max_bytes.unwrap_or(defaults.bytes),
        events: config.max_events.unwrap_or(defaults.events),
        timeout_secs: config.timeout_secs.unwrap_or(defaults.timeout_secs),
    }
}

impl BatchSettings {
    /// Settings made of the sink's own defaults.
    pub fn new(bytes: usize, events: usize, timeout_secs: u64) -> (res: Self)
        ensures
            res.bytes == bytes,
            res.events == events,
            res.timeout_secs == timeout_secs,
    {
        BatchSettings { bytes, events, timeout_secs }
    }

    /// Applies a user's batch configuration over these defaults.
    pub fn parse_config(self, config: BatchConfig) -> (res: BatchSettings)
        ensures
            res == spec_parse_batch(self, config),
            config.max_bytes matches Some(b) ==> res.bytes == b,
            config.max_bytes is None ==> res.bytes == self.bytes,
            config.max_events matches Some(e) ==> res.events == e,
            config.max_events is None ==> res.events == self.events,
            config.timeout_secs matches Some(t) ==> res.timeout_secs == t,
            config.timeout_secs is None ==> res.timeout_secs == self.timeout_secs,
    {
        let bytes = match config.max_bytes {
            Some(b) => b,
            None => self.bytes,
        };
        let events = match config.max_events {
            Some(e) => e,
            None => self.events,
        };
        let timeout_secs = match config.timeout_secs {
            Some(t) => t,
            None => self.timeout_secs,
        };
        BatchSettings { bytes, events, timeout_secs }
    }
}

/// Parsing an empty configuration keeps every default.
pub proof fn lemma_empty_batch_config_keeps_defaults(defaults: BatchSettings)
    ensures
        spec_parse_batch(
            defaults,
            BatchConfig { max_bytes: None, max_events: None, timeout_secs: None },
        ) == defaults,
{
}

/// A limit the user set is the limit the sink uses, whatever its relation to
/// the default (larger, smaller or equal); a limit left unset is the default.
pub proof fn lemma_set_batch_limits_win(defaults: BatchSettings, config: BatchConfig)
    ensures
        forall|b: usize| config.max_bytes == Some(b) ==> spec_parse_batch(defaults, config).bytes == b,
        forall|e: usize| config.max_events == Some(e) ==> spec_parse_batch(defaults, config).events == e,
        forall|t: u64| config.timeout_secs == Some(t) ==> spec_parse_batch(defaults, config).timeout_secs == t,
        config.max_bytes is None ==> spec_parse_batch(defaults, config).bytes == defaults.bytes,
        config.max_events is None ==> spec_parse_batch(defaults, config).events == defaults.events,
        config.timeout_secs is None ==> spec_parse_batch(defaults, config).timeout_secs
            == defaults.timeout_secs,
{
}

/// Changing the defaults never changes a limit the user set: two sinks with
/// different defaults settle on the same value for every limit configured.
pub proof fn lemma_set_batch_limits_ignore_defaults(d1: BatchSettings, d2: BatchSettings, config: BatchConfig)
    ensures
        config.max_bytes is Some ==> spec_parse_batch(d1, config).bytes == spec_parse_batch(d2, config).bytes,
        config.max_events is Some ==> spec_parse_batch(d1, config).events == spec_parse_batch(d2, config).events,
        config.timeout_secs is Some ==> spec_parse_batch(d1, config).timeout_secs == spec_parse_batch(
            d2,
            config,
        ).timeout_secs,
{
}

/// Applying the same configuration a second time changes nothing.
pub proof fn lemma_parse_batch_idempotent(defaults: BatchSettings, config: BatchConfig)
    ensures
        spec_parse_batch(spec_parse_batch(defaults, config), config) == spec_parse_batch(
            defaults,
            config,
        ),
{
}

/// Request limits (concurrency, timeouts, rate limits, retries) as a user writes
/// them; an absent value means "use the default".
#[derive(Clone, Copy, Debug)]
pub struct TowerRequestConfig {
    pub concurrency: Option<usize>,
    pub timeout_secs: Option<u64>,
    pub rate_limit_duration_secs: Option<u64>,
    pub rate_limit_num: Option<u64>,
    pub retry_attempts: Option<usize>,
    pub retry_max_duration_secs: Option<u64>,
    pub retry_initial_backoff_secs: Option<u64>,
}

/// The first of two optional values that is present.
pub open spec fn spec_or<T>(first: Option<T>, second: Option<T>) -> Option<T> {
    match first {
        Some(v) => Some(v),
        None => second,
    }
}

fn or_usize(first: Option<usize>, second: Option<usize>) -> (res: Option<usize>)
    ensures
        res == spec_or(first, second),
{
    match first {
        Some(v) => Some(v),
        None => second,
    }
}

fn or_u64(first: Option<u64>, second: Option<u64>) -> (res: Option<u64>)
    ensures
        res == spec_or(first, second),
{
    match first {
        Some(v) => Some(v),
        None => second,
    }
}

/// Each limit of `config`, or the one of `defaults` where `config` leaves it unset.
pub open spec fn spec_unwrap_with(config: TowerRequestConfig, defaults: TowerRequestConfig) -> TowerRequestConfig {
    TowerRequestConfig {
        concurrency: spec_or(config.concurrency, defaults.concurrency),
        timeout_secs: spec_or(config.timeout_secs, defaults.timeout_secs),
        rate_limit_duration_secs: spec_or(config.rate_limit_duration_secs, defaults.rate_limit_duration_secs),
        rate_limit_num: spec_or(config.rate_limit_num, defaults.rate_limit_num),
        retry_attempts: spec_or(config.retry_attempts, defaults.retry_attempts),
        retry_max_duration_secs: spec_or(config.retry_max_duration_secs, defaults.retry_max_duration_secs),
        retry_initial_backoff_secs: spec_or(config.retry_initial_backoff_secs, defaults.retry_initial_backoff_secs),
    }
}

/// The request configuration in which nothing is set.
pub open spec fn spec_empty_request() -> TowerRequestConfig {
    TowerRequestConfig {
        concurrency: None,
        timeout_secs: None,
        rate_limit_duration_secs: None,
        rate_limit_num: None,
        retry_attempts: None,
        retry_max_duration_secs: None,
        retry_initial_backoff_secs: None,
    }
}

impl Default for TowerRequestConfig {
    fn default() -> (res: Self)
        ensures
            res == spec_empty_request(),
    {
        TowerRequestConfig {
            concurrency: None,
            timeout_secs: None,
            rate_limit_duration_secs: None,
            rate_limit_num: None,
            retry_attempts: None,
            retry_max_duration_secs: None,
            retry_initial_backoff_secs: None,
        }
    }
}

impl TowerRequestConfig {
    /// Fills every limit left unset from `defaults`.
    pub fn unwrap_with(&self, defaults: &TowerRequestConfig) -> (res: TowerRequestConfig)
        ensures
            res == spec_unwrap_with(*self, *defaults),
            res.concurrency == (if self.concurrency is Some { self.concurrency } else { defaults.concurrency }),
            res.timeout_secs == (if self.timeout_secs is Some { self.timeout_secs } else { defaults.timeout_secs }),
            res.rate_limit_duration_secs == (if self.rate_limit_duration_secs is Some {
                self.rate_limit_duration_secs
            } else {
                defaults.rate_limit_duration_secs
            }),
            res.rate_limit_num == (if self.rate_limit_num is Some { self.rate_limit_num } else { defaults.rate_limit_num }),
            res.retry_attempts == (if self.retry_attempts is Some { self.retry_attempts } else { defaults.retry_attempts }),
            res.retry_max_duration_secs == (if self.retry_max_duration_secs is Some {
                self.retry_max_duration_secs
            } else {
                defaults.retry_max_duration_secs
            }),
            res.retry_initial_backoff_secs == (if self.retry_initial_backoff_secs is Some {
                self.retry_initial_backoff_secs
            } else {
                defaults.retry_initial_backoff_secs
            }),
    {
        TowerRequestConfig {
            concurrency: or_usize(self.concurrency, defaults.concurrency),
            timeout_secs: or_u64(self.timeout_secs, defaults.timeout_secs),
            rate_limit_duration_secs: or_u64(self.rate_limit_duration_secs, defaults.rate_limit_duration_secs),
            rate_limit_num: or_u64(self.rate_limit_num, defaults.rate_limit_num),
            retry_attempts: or_usize(self.retry_attempts, defaults.retry_attempts),
            retry_max_duration_secs: or_u64(self.retry_max_duration_secs, defaults.retry_max_duration_secs),
            retry_initial_backoff_secs: or_u64(self.retry_initial_backoff_secs, defaults.retry_initial_backoff_secs),
        }
    }
}

/// A limit the user set is kept whatever the default says; defaults only
/// fill the limits left unset.
pub proof fn lemma_set_request_limits_are_kept(config: TowerRequestConfig, defaults: TowerRequestConfig)
    ensures
        config.concurrency is Some ==> spec_unwrap_with(config, defaults).concurrency == config.concurrency,
        config.timeout_secs is Some ==> spec_unwrap_with(config, defaults).timeout_secs == config.timeout_secs,
        config.rate_limit_duration_secs is Some ==> spec_unwrap_with(config, defaults).rate_limit_duration_secs
            == config.rate_limit_duration_secs,
        config.rate_limit_num is Some ==> spec_unwrap_with(config, defaults).rate_limit_num == config.rate_limit_num,
        config.retry_attempts is Some ==> spec_unwrap_with(config, defaults).retry_attempts == config.retry_attempts,
        config.retry_max_duration_secs is Some ==> spec_unwrap_with(config, defaults).retry_max_duration_secs
            == config.retry_max_duration_secs,
        config.retry_initial_backoff_secs is Some ==> spec_unwrap_with(config, defaults).retry_initial_backoff_secs
            == config.retry_initial_backoff_secs,
        config.concurrency is None ==> spec_unwrap_with(config, defaults).concurrency == defaults.concurrency,
        config.timeout_secs is None ==> spec_unwrap_with(config, defaults).timeout_secs == defaults.timeout_secs,
        config.rate_limit_duration_secs is None ==> spec_unwrap_with(config, defaults).rate_limit_duration_secs
            == defaults.rate_limit_duration_secs,
        config.rate_limit_num is None ==> spec_unwrap_with(config, defaults).rate_limit_num == defaults.rate_limit_num,
        config.retry_attempts is None ==> spec_unwrap_with(config, defaults).retry_attempts == defaults.retry_attempts,
        config.retry_max_duration_secs is None ==> spec_unwrap_with(config, defaults).retry_max_duration_secs
            == defaults.retry_max_duration_secs,
        config.retry_initial_backoff_secs is None ==> spec_unwrap_with(config, defaults).retry_initial_backoff_secs
            == defaults.retry_initial_backoff_secs,
{
}

/// A configuration in which every limit is set is its own result, whatever
/// the defaults.
pub proof fn lemma_full_request_config_ignores_defaults(config: TowerRequestConfig, defaults: TowerRequestConfig)
    requires
        config.concurrency is Some,
        config.timeout_secs is Some,
        config.rate_limit_duration_secs is Some,
        config.rate_limit_num is Some,
        config.retry_attempts is Some,
        config.retry_max_duration_secs is Some,
        config.retry_initial_backoff_secs is Some,
    ensures
        spec_unwrap_with(config, defaults) == config,
{
}

/// Filling from an empty configuration changes nothing.
pub proof fn lemma_unwrap_with_empty_is_identity(config: TowerRequestConfig)
    ensures
        spec_unwrap_with(config, spec_empty_request()) == config,
{
}

} // verus!
