//! The pool as a mathematical state machine.
//!
//! [`PoolState`] is what a pool *is*: its configuration, the stack of idle
//! connections, the number of claimed slots, the queue of waiting callers and
//! whether it has been shut down. Each operation of the pool is a function
//! from a state (and the operation's arguments) to the next state and to what
//! the caller is told. The executable pool is specified against these
//! functions.

use vstd::prelude::*;
use crate::config::PoolConfig;
use crate::error::PoolError;
use crate::step::{CheckedOutHandle, Released, Step, Waiter};

verus! {

/// Whether a deadline has been reached at `now`.
pub open spec fn expired(deadline: Option<u64>, now: u64) -> bool {
    deadline matches Some(at) && now >= at
}

/// No caller stands in the queue twice.
pub open spec fn distinct_callers(waiters: Seq<Waiter>) -> bool {
    forall|i: int, j: int|
        0 <= i < j < waiters.len() ==> (#[trigger] waiters[i]).caller != (#[trigger] waiters[j]).caller
}

/// What is decided once the manager has judged a connection taken from the
/// idle stack: a usable one goes to the caller, an unusable one is to be
/// destroyed.
pub open spec fn validated<C>(conn: C, valid: bool) -> Step<C> {
    if valid {
        Step::Ready(CheckedOutHandle { conn, invalid: false })
    } else {
        Step::Destroy(conn)
    }
}

/// What is decided once the manager has destroyed a connection that failed
/// validation: its replacement is to be created.
pub open spec fn destroyed<C>() -> Step<C> {
    Step::Create
}

/// The abstract state of a pool.
#[verifier::ext_equal]
pub struct PoolState<C> {
    /// The options the pool was built with.
    pub config: PoolConfig,
    /// Connections ready for reuse. The last one is handed out first.
    pub idle: Seq<C>,
    /// Slots claimed by callers: handles that are out, and connections being
    /// validated or created on a caller's behalf.
    pub checked_out: nat,
    /// Callers waiting for a slot, longest wait first.
    pub waiters: Seq<Waiter>,
    /// Whether the pool has been shut down.
    pub closed: bool,
}

impl<C> PoolState<C> {
    /// The invariant of every reachable state.
    pub open spec fn wf(self) -> bool {
        &&& self.config.valid()
        &&& self.idle.len() + self.checked_out <= self.config.max_size
        &&& distinct_callers(self.waiters)
        &&& self.closed ==> self.idle.len() == 0 && self.waiters.len() == 0
    }

    /// A pool right after construction: open, nobody waiting, nothing
    /// claimed, and the probe connection idle.
    pub open spec fn initial(config: PoolConfig, probe: C) -> Self {
        PoolState {
            config,
            idle: seq![probe],
            checked_out: 0,
            waiters: Seq::empty(),
            closed: false,
        }
    }

    /// A caller could be given a slot: a connection is idle, or the cap allows
    /// another one.
    pub open spec fn has_room(self) -> bool {
        self.idle.len() > 0 || self.checked_out < self.config.max_size
    }

    /// `caller` stands in the queue.
    pub open spec fn is_waiting(self, caller: u64) -> bool {
        exists|i: int| 0 <= i < self.waiters.len() && (#[trigger] self.waiters[i]).caller == caller
    }

    /// Where `caller` stands in the queue, if it does.
    pub open spec fn position(self, caller: u64) -> int {
        choose|i: int| 0 <= i < self.waiters.len() && (#[trigger] self.waiters[i]).caller == caller
    }

    /// `first` stands in the queue somewhere before `second`.
    pub open spec fn ahead_of(self, first: u64, second: u64) -> bool {
        exists|i: int, j: int|
            0 <= i < j < self.waiters.len() && (#[trigger] self.waiters[i]).caller == first && (
            #[trigger] self.waiters[j]).caller == second
    }

    /// Nobody has waited longer than `caller`: the queue is empty or it is at
    /// the head.
    pub open spec fn first_in_line(self, caller: u64) -> bool {
        self.waiters.len() == 0 || self.waiters[0].caller == caller
    }

    /// The waiting caller that would be served if it asked now.
    pub open spec fn next_ready(self) -> Option<u64> {
        if self.waiters.len() > 0 && self.has_room() {
            Some(self.waiters[0].caller)
        } else {
            None
        }
    }

    /// `caller` leaves the queue. Nothing else changes.
    pub open spec fn cancel(self, caller: u64) -> Self {
        if self.is_waiting(caller) {
            PoolState { waiters: self.waiters.remove(self.position(caller)), ..self }
        } else {
            self
        }
    }

    /// A slot is claimed: the most recently returned idle connection if there
    /// is one, else a slot for a connection still to be created.
    pub open spec fn claim(self) -> (Self, Step<C>) {
        if self.idle.len() > 0 {
            let conn = self.idle.last();
            let next = PoolState {
                idle: self.idle.drop_last(),
                checked_out: self.checked_out + 1,
                ..self
            };
            if self.config.validate_on_checkout {
                (next, Step::Validate(conn))
            } else {
                (next, Step::Ready(CheckedOutHandle { conn, invalid: false }))
            }
        } else {
            (PoolState { checked_out: self.checked_out + 1, ..self }, Step::Create)
        }
    }

    /// `caller` asks for a connection at time `now`.
    ///
    /// A closed pool refuses. A caller with nobody ahead of it is served when
    /// there is room. Otherwise a caller already in the queue times out once
    /// its deadline is reached and keeps waiting before that, and a new caller
    /// joins the end of the queue.
    pub open spec fn acquire(self, caller: u64, now: u64) -> (Self, Step<C>) {
        if self.closed {
            (self, Step::Fail(PoolError::PoolClosed))
        } else if self.first_in_line(caller) && self.has_room() {
            self.cancel(caller).claim()
        } else if self.is_waiting(caller) {
            let deadline = self.waiters[self.position(caller)].deadline;
            if expired(deadline, now) {
                (self.cancel(caller), Step::Fail(PoolError::PoolTimeout))
            } else {
                (self, Step::Wait(deadline))
            }
        } else {
            let deadline = self.config.deadline_from(now);
            (
                PoolState { waiters: self.waiters.push(Waiter { caller, deadline }), ..self },
                Step::Wait(deadline),
            )
        }
    }

    /// The manager was asked for a connection and `outcome` is what came of
    /// it: a connection goes to the caller, a failure gives the slot back.
    pub open spec fn created(self, outcome: Option<C>) -> (Self, Step<C>) {
        match outcome {
            Some(conn) => (self, Step::Ready(CheckedOutHandle { conn, invalid: false })),
            None => (
                PoolState {
                    checked_out: if self.checked_out > 0 {
                        (self.checked_out - 1) as nat
                    } else {
                        0
                    },
                    ..self
                },
                Step::Fail(PoolError::ManagerError),
            ),
        }
    }

    /// A handle comes back.
    ///
    /// With no slot claimed the handle cannot be this pool's: its connection
    /// is destroyed and nothing changes. Otherwise the slot is given back; the
    /// connection returns to the idle stack unless it is invalid or the pool
    /// is closed, in which case it is destroyed.
    pub open spec fn release(self, handle: CheckedOutHandle<C>) -> (Self, Released<C>) {
        let next = if self.checked_out == 0 {
            self
        } else if self.closed || handle.invalid {
            PoolState { checked_out: (self.checked_out - 1) as nat, ..self }
        } else {
            PoolState {
                idle: self.idle.push(handle.conn),
                checked_out: (self.checked_out - 1) as nat,
                ..self
            }
        };
        let destroy = if self.checked_out > 0 && !self.closed && !handle.invalid {
            None
        } else {
            Some(handle.conn)
        };
        (next, Released { destroy, wake: next.next_ready() })
    }

    /// The pool is shut down: it is closed, every idle connection is handed
    /// over for destruction and every waiting caller is to be woken.
    pub open spec fn shutdown(self) -> (Self, Seq<C>, Seq<u64>) {
        (
            PoolState { idle: Seq::empty(), waiters: Seq::empty(), closed: true, ..self },
            self.idle,
            self.waiters.map_values(|w: Waiter| w.caller),
        )
    }
}

} // verus!
