//! The failures the pool reports to its callers.

use vstd::prelude::*;

verus! {

/// Why pool construction or an acquisition failed.
#[derive(Clone, Copy, Debug, PartialEq, Eq, Structural)]
pub enum PoolError {
    /// The construction parameters are unusable: the pool is not built.
    ConfigError,
    /// The connection manager could not create a connection for this caller.
    /// The pool stays usable.
    ManagerError,
    /// Every slot stayed taken for the whole wait budget.
    PoolTimeout,
    /// The pool has been shut down.
    PoolClosed,
}

/// What can go wrong at the connection manager.
#[derive(Clone, Copy, Debug, PartialEq, Eq, Structural)]
pub enum Failure {
    /// The first connection, made while the pool is built, could not be
    /// created or was unusable.
    Probe,
    /// A connection could not be created for a caller.
    Creation,
    /// An idle connection failed validation on checkout.
    Validation,
    /// A connection could not be destroyed cleanly.
    Destruction,
}

/// Who hears of a failure: the caller that triggered it, as an error, or
/// the configured error handler. Never both.
#[derive(Clone, Copy, Debug, PartialEq, Eq, Structural)]
pub enum Report {
    /// The failure is returned to the caller as this error.
    Caller(PoolError),
    /// The failure goes to the error handler; no caller sees it.
    Handler,
}

impl Failure {
    /// Where a failure is reported. What stops a caller from getting a
    /// connection is returned to that caller: a failed probe as
    /// `ConfigError`, a failed creation as `ManagerError`. A failed
    /// validation is made good by a replacement and a failed destruction
    /// concerns a connection nobody waits for, so no caller is told of
    /// either: they go to the error handler.
    pub open spec fn report_to(self) -> Report {
        match self {
            Failure::Probe => Report::Caller(PoolError::ConfigError),
            Failure::Creation => Report::Caller(PoolError::ManagerError),
            Failure::Validation => Report::Handler,
            Failure::Destruction => Report::Handler,
        }
    }

    /// Computes [`Self::report_to`].
    pub fn report(self) -> (to: Report)
        ensures
            to == self.report_to(),
    {
        match self {
            Failure::Probe => Report::Caller(PoolError::ConfigError),
            Failure::Creation => Report::Caller(PoolError::ManagerError),
            Failure::Validation => Report::Handler,
            Failure::Destruction => Report::Handler,
        }
    }
}

} // verus!
