//! A bounded connection pool for request-scoped middleware.
//!
//! The pool itself performs no I/O. It is a state machine: every method is one
//! short critical section that updates the bookkeeping and tells the caller
//! what to do next (hand out a connection, validate one, create one, wait).
//! The embedding application performs those actions outside the critical
//! section and reports back.
//!
//! * [`config`] and [`error`] hold the options and the failures.
//! * [`step`] holds the values that pass between the pool and its callers.
//! * [`model`] defines the pool as a mathematical state machine.
//! * [`pool`] is the executable pool, specified against the model.
//! * [`laws`] proves what holds of every pool.
//! * [`startup`] turns a connection string and a size into settings for a
//!   Redis-backed pool.

pub mod config;
pub mod error;
pub mod laws;
pub mod model;
pub mod pool;
pub mod startup;
pub mod step;

pub use config::PoolConfig;
pub use error::{Failure, PoolError, Report};
pub use pool::ConnectionPool;
pub use startup::{RedisSettings, StartupError};
pub use step::{CheckedOutHandle, Probe, Refused, Released, Shutdown, Step, Waiter};
