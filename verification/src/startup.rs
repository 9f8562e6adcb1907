//! What a Redis-backed pool is started from: a connection string and a size.
//!
//! The connection string is read by the `r2d2_redis` crate. Reading it is
//! pure parsing: no network is touched, and the verdict depends on nothing
//! but the string. Which strings pass is that crate's business (it takes
//! Redis URLs), so this module gives the verdict a name,
//! [`redis_url_accepted`], and states its own results over it.

use vstd::prelude::*;
use crate::config::PoolConfig;
use crate::error::PoolError;

verus! {

/// `r2d2_redis::RedisConnectionManager`, carried through as an opaque value.
#[verifier::external_type_specification]
#[verifier::external_body]
pub struct ExRedisConnectionManager(r2d2_redis::RedisConnectionManager);

/// `redis::RedisError` as re-exported by `r2d2_redis`, carried through as an
/// opaque value.
#[verifier::external_type_specification]
#[verifier::external_body]
pub struct ExRedisError(r2d2_redis::redis::RedisError);

/// Whether `r2d2_redis::RedisConnectionManager::new` accepts a connection
/// string. Left undefined here: the rules are those of the `redis` crate's
/// URL parsing.
pub uninterp spec fn redis_url_accepted(connect_str: Seq<char>) -> bool;

/// Calls `r2d2_redis::RedisConnectionManager::new` on the connection string.
///
/// Trusted. The call parses the string as a URL without touching the
/// network, and either hands back a manager or says why the string is
/// unusable. The one claim made is that which of the two happens is decided
/// by the string alone.
#[verifier::external_body]
fn open_manager(connect_str: &str) -> (opened: Result<
    r2d2_redis::RedisConnectionManager,
    r2d2_redis::redis::RedisError,
>)
    ensures
        opened is Ok <==> redis_url_accepted(connect_str@),
{
    r2d2_redis::RedisConnectionManager::new(connect_str)
}

/// Why no settings could be made. Either way the failure is a
/// `ConfigError`.
#[derive(Debug)]
pub enum StartupError {
    /// The connection string was rejected, for this reason.
    BadConnectString(r2d2_redis::redis::RedisError),
    /// A pool of zero connections was asked for.
    NoConnections,
}

impl StartupError {
    /// The kind of pool failure this is: always `ConfigError`.
    pub fn kind(&self) -> (kind: PoolError)
        ensures
            kind == PoolError::ConfigError,
    {
        PoolError::ConfigError
    }
}

/// Everything needed to start a Redis-backed pool.
#[derive(Debug)]
pub struct RedisSettings {
    /// The manager that will create, validate and destroy the connections.
    pub manager: r2d2_redis::RedisConnectionManager,
    /// The pool's configuration.
    pub config: PoolConfig,
}

impl RedisSettings {
    /// Decides on the settings once the connection string has been read.
    ///
    /// A rejected string fails with the reason it was rejected for, whatever
    /// the size. An accepted string with a size of zero fails with
    /// `NoConnections`. Otherwise a pool of `num_connections` connections
    /// with default options is configured around the manager.
    pub fn settle(
        opened: Result<r2d2_redis::RedisConnectionManager, r2d2_redis::redis::RedisError>,
        num_connections: u32,
    ) -> (settled: Result<RedisSettings, StartupError>)
        ensures
            settled is Ok <==> opened is Ok && num_connections > 0,
            settled matches Ok(settings) ==> settings.manager == opened->Ok_0 && settings.config
                == PoolConfig::defaults(num_connections) && settings.config.valid(),
            opened matches Err(cause) ==> settled == Err::<RedisSettings, StartupError>(
                StartupError::BadConnectString(cause),
            ),
            opened is Ok && num_connections == 0 ==> settled == Err::<RedisSettings, StartupError>(
                StartupError::NoConnections,
            ),
    {
        match opened {
            Err(cause) => Err(StartupError::BadConnectString(cause)),
            Ok(manager) => {
                if num_connections == 0 {
                    Err(StartupError::NoConnections)
                } else {
                    Ok(RedisSettings { manager, config: PoolConfig::new(num_connections) })
                }
            },
        }
    }

    /// Reads the connection string and decides on the settings.
    ///
    /// Succeeds exactly when the string is accepted and `num_connections`
    /// is positive; the configuration is then the default one for that many
    /// connections. A rejected string fails with `BadConnectString`, an
    /// accepted one with a size of zero with `NoConnections`.
    pub fn new(connect_str: &str, num_connections: u32) -> (settled: Result<
        RedisSettings,
        StartupError,
    >)
        ensures
            settled is Ok <==> redis_url_accepted(connect_str@) && num_connections > 0,
            settled matches Ok(settings) ==> settings.config == PoolConfig::defaults(
                num_connections,
            ) && settings.config.valid(),
            settled matches Err(error) ==> (error is BadConnectString <==> !redis_url_accepted(
                connect_str@,
            )),
            settled matches Err(error) ==> (error is NoConnections <==> redis_url_accepted(
                connect_str@,
            ) && num_connections == 0),
    {
        RedisSettings::settle(open_manager(connect_str), num_connections)
    }
}

} // verus!
