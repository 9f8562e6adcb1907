//! Pool configuration.

use vstd::prelude::*;

verus! {

/// Wait budget of a freshly built configuration, in milliseconds.
pub const DEFAULT_ACQUIRE_TIMEOUT: u64 = 30_000;

/// The options a pool is built with.
///
/// Times are milliseconds on whatever monotonic clock the caller uses; the
/// pool only ever compares and adds them.
#[derive(Clone, Copy, Debug, PartialEq, Eq)]
pub struct PoolConfig {
    /// Hard cap on simultaneously live connections. Must be positive.
    pub max_size: u32,
    /// How long a caller waits for a slot. Zero means without limit.
    pub acquire_timeout: u64,
    /// Whether an idle connection is validated before it is handed out.
    pub validate_on_checkout: bool,
}

impl PoolConfig {
    /// A configuration is usable when it allows at least one connection.
    pub open spec fn valid(self) -> bool {
        self.max_size > 0
    }

    /// The instant at which a caller that starts waiting at `now` gives up:
    /// none without a wait budget, else `now` plus the budget, capped at the
    /// largest representable instant.
    pub open spec fn deadline_from(self, now: u64) -> Option<u64> {
        if self.acquire_timeout == 0 {
            None
        } else if now + self.acquire_timeout > u64::MAX {
            Some(u64::MAX)
        } else {
            Some((now + self.acquire_timeout) as u64)
        }
    }

    /// The configuration for `max_size` connections with every other option
    /// at its default: connections are validated on checkout and a caller
    /// waits up to [`DEFAULT_ACQUIRE_TIMEOUT`].
    pub open spec fn defaults(max_size: u32) -> PoolConfig {
        PoolConfig {
            max_size,
            acquire_timeout: DEFAULT_ACQUIRE_TIMEOUT,
            validate_on_checkout: true,
        }
    }

    /// Builds [`Self::defaults`].
    pub fn new(max_size: u32) -> (config: PoolConfig)
        ensures
            config == PoolConfig::defaults(max_size),
    {
        PoolConfig { max_size, acquire_timeout: DEFAULT_ACQUIRE_TIMEOUT, validate_on_checkout: true }
    }

    /// The same configuration with another wait budget.
    pub fn with_acquire_timeout(self, millis: u64) -> (config: PoolConfig)
        ensures
            config == (PoolConfig { acquire_timeout: millis, ..self }),
    {
        PoolConfig { acquire_timeout: millis, ..self }
    }

    /// The same configuration with validation on checkout switched on or off.
    pub fn with_validate_on_checkout(self, validate: bool) -> (config: PoolConfig)
        ensures
            config == (PoolConfig { validate_on_checkout: validate, ..self }),
    {
        PoolConfig { validate_on_checkout: validate, ..self }
    }

    /// Whether a pool can be built from this configuration.
    pub fn is_valid(&self) -> (ok: bool)
        ensures
            ok == self.valid(),
    {
        self.max_size > 0
    }

    /// Computes [`Self::deadline_from`].
    pub fn deadline(&self, now: u64) -> (deadline: Option<u64>)
        ensures
            deadline == self.deadline_from(now),
    {
        if self.acquire_timeout == 0 {
            None
        } else {
            Some(now.saturating_add(self.acquire_timeout))
        }
    }
}

} // verus!
