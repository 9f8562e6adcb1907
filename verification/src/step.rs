//! The values that pass between the pool and its callers.

use vstd::prelude::*;
use crate::error::PoolError;

verus! {

/// A caller parked until a slot frees up.
#[derive(Clone, Copy, Debug, PartialEq, Eq)]
pub struct Waiter {
    /// The name the caller gave itself when it asked.
    pub caller: u64,
    /// When the caller gives up; none if it waits without limit.
    pub deadline: Option<u64>,
}

/// One caller's exclusive claim on one connection.
///
/// The handle is not `Clone`: whoever holds it holds the connection, and
/// giving it back to the pool consumes it.
#[derive(Debug, PartialEq, Eq)]
pub struct CheckedOutHandle<C> {
    /// The connection in use.
    pub conn: C,
    /// Set when the connection was found unusable while checked out. Such a
    /// connection is destroyed on return instead of being pooled.
    pub invalid: bool,
}

/// What the pool tells a caller that is acquiring a connection.
#[derive(Debug, PartialEq, Eq)]
pub enum Step<C> {
    /// The acquisition is complete: the caller owns this handle.
    Ready(CheckedOutHandle<C>),
    /// Ask the manager whether this connection is still usable, then report
    /// the answer.
    Validate(C),
    /// Have the manager destroy this connection and report when that is
    /// done. The claimed slot stays claimed: the order to create the
    /// replacement is the answer to that report.
    Destroy(C),
    /// Have the manager create a connection and report the outcome.
    Create,
    /// No slot is free: park until woken or until the deadline, then ask
    /// again under the same name.
    Wait(Option<u64>),
    /// The acquisition failed.
    Fail(PoolError),
}

/// What came of the first connection, made and validated before a pool is
/// built.
#[derive(Debug, PartialEq, Eq)]
pub enum Probe<C> {
    /// The manager created the connection and found it usable.
    Usable(C),
    /// The manager created the connection but found it unusable.
    Unusable(C),
    /// The manager could not create a connection.
    Failed,
}

impl<C> Probe<C> {
    /// The connection the probe made, usable or not.
    pub open spec fn connection(self) -> Option<C> {
        match self {
            Probe::Usable(conn) => Some(conn),
            Probe::Unusable(conn) => Some(conn),
            Probe::Failed => None,
        }
    }
}

/// Why no pool was built, and what is left to clean up.
#[derive(Debug, PartialEq, Eq)]
pub struct Refused<C> {
    /// The failure to report.
    pub error: PoolError,
    /// The probe connection, if one was made, for the manager to destroy.
    pub destroy: Option<C>,
}

/// What the pool tells whoever returned a handle.
#[derive(Debug, PartialEq, Eq)]
pub struct Released<C> {
    /// A connection the manager must destroy.
    pub destroy: Option<C>,
    /// The waiting caller that can now be served.
    pub wake: Option<u64>,
}

impl<C> CheckedOutHandle<C> {
    /// Marks the connection as unusable: it will be destroyed, not pooled,
    /// when the handle is returned.
    pub fn mark_invalid(&mut self)
        ensures
            final(self).invalid,
            final(self).conn == old(self).conn,
    {
        self.invalid = true;
    }
}

/// What a shutdown leaves for the caller to do.
#[derive(Debug, PartialEq, Eq)]
pub struct Shutdown<C> {
    /// The connections that were idle, for the manager to destroy.
    pub destroy: Vec<C>,
    /// The callers that were waiting, in queue order, to be woken.
    pub wake: Vec<u64>,
}

} // verus!
