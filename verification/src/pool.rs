//! The executable pool.
//!
//! [`ConnectionPool`] keeps the books of a bounded pool of connections of any
//! type `C`. It never talks to a connection manager itself: each method is one
//! short critical section, and its result says which manager call, if any,
//! the caller has to make before coming back. An acquisition runs like this:
//!
//! 1. [`ConnectionPool::acquire`] answers with a [`Step`].
//! 2. On `Validate(conn)` the caller validates `conn` and passes the verdict
//!    to [`ConnectionPool::validated`].
//! 3. On `Destroy(conn)` the caller destroys `conn` and then reports to
//!    [`ConnectionPool::destroyed`], which answers `Create`.
//! 4. On `Create` the caller creates a connection and passes the outcome to
//!    [`ConnectionPool::created`].
//! 5. On `Wait(deadline)` the caller parks, and calls `acquire` again under
//!    the same name when it is woken or the deadline has come.
//! 6. `Ready(handle)` and `Fail(error)` end the acquisition.
//!
//! After any call that changes the pool, [`ConnectionPool::next_ready`] names
//! the waiting caller, if any, that would now be served and should be woken.

use vstd::prelude::*;
use crate::config::PoolConfig;
use crate::error::PoolError;
use crate::laws::{lemma_step_keeps_invariant, Op};
use crate::model::{destroyed, validated, PoolState};
use crate::step::{CheckedOutHandle, Probe, Refused, Released, Shutdown, Step, Waiter};

verus! {

/// A bounded pool of connections of type `C`.
pub struct ConnectionPool<C> {
    config: PoolConfig,
    idle: Vec<C>,
    checked_out: u32,
    waiters: Vec<Waiter>,
    closed: bool,
}

impl<C> View for ConnectionPool<C> {
    type V = PoolState<C>;

    closed spec fn view(&self) -> PoolState<C> {
        PoolState {
            config: self.config,
            idle: self.idle@,
            checked_out: self.checked_out as nat,
            waiters: self.waiters@,
            closed: self.closed,
        }
    }
}

impl<C> ConnectionPool<C> {
    /// The pool's bookkeeping is consistent. Construction establishes this and
    /// every method keeps it.
    pub open spec fn wf(&self) -> bool {
        self@.wf()
    }

    /// Builds a pool from its configuration and the outcome of the first
    /// probe connection.
    ///
    /// Succeeds when the configuration allows at least one connection and
    /// the probe is usable: the pool then starts open with the probe
    /// connection idle. Otherwise it fails with `ConfigError` and hands back
    /// the probe connection, if one was made, to be destroyed.
    pub fn construct(config: PoolConfig, probe: Probe<C>) -> (built: Result<Self, Refused<C>>)
        ensures
            built is Ok <==> config.valid() && probe is Usable,
            built matches Ok(pool) ==> pool.wf() && pool@ == PoolState::initial(
                config,
                probe->Usable_0,
            ),
            built matches Err(refused) ==> refused.error == PoolError::ConfigError
                && refused.destroy == probe.connection(),
    {
        match probe {
            Probe::Usable(conn) => {
                if config.max_size == 0 {
                    return Err(Refused { error: PoolError::ConfigError, destroy: Some(conn) });
                }
                let mut idle: Vec<C> = Vec::new();
                idle.push(conn);
                let pool = ConnectionPool {
                    config,
                    idle,
                    checked_out: 0,
                    waiters: Vec::new(),
                    closed: false,
                };
                assert(pool@.idle =~= seq![conn]);
                assert(pool@.waiters =~= Seq::empty());
                Ok(pool)
            },
            Probe::Unusable(conn) => Err(
                Refused { error: PoolError::ConfigError, destroy: Some(conn) },
            ),
            Probe::Failed => Err(Refused { error: PoolError::ConfigError, destroy: None }),
        }
    }

    /// The configuration the pool was built with.
    pub fn config(&self) -> (config: PoolConfig)
        ensures
            config == self@.config,
    {
        self.config
    }

    /// The cap on live connections.
    pub fn max_size(&self) -> (cap: u32)
        ensures
            cap == self@.config.max_size,
    {
        self.config.max_size
    }

    /// How many connections are idle.
    pub fn idle_count(&self) -> (count: usize)
        ensures
            count == self@.idle.len(),
    {
        self.idle.len()
    }

    /// How many slots are claimed by callers.
    pub fn checked_out_count(&self) -> (count: u32)
        ensures
            count == self@.checked_out,
    {
        self.checked_out
    }

    /// How many callers are waiting.
    pub fn waiting_count(&self) -> (count: usize)
        ensures
            count == self@.waiters.len(),
    {
        self.waiters.len()
    }

    /// Whether the pool has been shut down.
    pub fn is_closed(&self) -> (closed: bool)
        ensures
            closed == self@.closed,
    {
        self.closed
    }

    /// Whether a caller could be given a slot right now.
    pub fn has_room(&self) -> (room: bool)
        ensures
            room == self@.has_room(),
    {
        self.idle.len() > 0 || self.checked_out < self.config.max_size
    }

    /// The waiting caller to wake: the head of the queue, if there is room
    /// for it.
    pub fn next_ready(&self) -> (caller: Option<u64>)
        ensures
            caller == self@.next_ready(),
    {
        if self.waiters.len() > 0 && self.has_room() {
            Some(self.waiters[0].caller)
        } else {
            None
        }
    }

    /// Looks `caller` up in the queue.
    fn find_waiter(&self, caller: u64) -> (found: Option<usize>)
        requires
            self.wf(),
        ensures
            found is Some <==> self@.is_waiting(caller),
            found matches Some(at) ==> at == self@.position(caller) && at < self@.waiters.len()
                && self@.waiters[at as int].caller == caller,
    {
        let mut at: usize = 0;
        while at < self.waiters.len()
            invariant
                self.wf(),
                at <= self.waiters.len(),
                forall|i: int| 0 <= i < at ==> (#[trigger] self.waiters@[i]).caller != caller,
            decreases self.waiters.len() - at,
        {
            if self.waiters[at].caller == caller {
                proof {
                    let chosen = self@.position(caller);
                    assert(self@.waiters[at as int].caller == caller);
                    assert(self@.waiters[chosen].caller == caller);
                }
                return Some(at);
            }
            at += 1;
        }
        None
    }

    /// Claims a slot for a caller that is being served.
    fn claim(&mut self) -> (step: Step<C>)
        requires
            old(self)@.config.valid(),
            old(self)@.idle.len() + old(self)@.checked_out <= old(self)@.config.max_size,
            old(self)@.has_room(),
        ensures
            final(self)@ == old(self)@.claim().0,
            step == old(self)@.claim().1,
    {
        self.checked_out = self.checked_out + 1;
        match self.idle.pop() {
            Some(conn) => {
                assert(self@.idle =~= old(self)@.idle.drop_last());
                if self.config.validate_on_checkout {
                    Step::Validate(conn)
                } else {
                    Step::Ready(CheckedOutHandle { conn, invalid: false })
                }
            },
            None => Step::Create,
        }
    }

    /// `caller` asks for a connection at time `now`, or asks again after a
    /// wait.
    ///
    /// A closed pool answers `Fail(PoolClosed)`. A caller with nobody ahead
    /// of it is served when there is room: with the most recently returned
    /// idle connection (`Validate` if the pool validates on checkout, else
    /// `Ready`), or with `Create` when none is idle. Otherwise a caller that
    /// is already in the queue gets `Fail(PoolTimeout)` and leaves the queue
    /// once its deadline is reached, and `Wait` before that; a new caller
    /// joins the end of the queue and gets `Wait` with its deadline.
    ///
    /// `caller` is a name of the caller's choosing. Callers that are
    /// acquiring at the same time must use different names, and a caller that
    /// was told to wait must either ask again under its name or
    /// [`cancel`](Self::cancel): the queue is served strictly in order, so a
    /// caller that silently goes away holds up those behind it until then.
    pub fn acquire(&mut self, caller: u64, now: u64) -> (step: Step<C>)
        requires
            old(self).wf(),
        ensures
            final(self).wf(),
            final(self)@ == old(self)@.acquire(caller, now).0,
            step == old(self)@.acquire(caller, now).1,
    {
        proof {
            lemma_step_keeps_invariant(self@, Op::Acquire { caller, now });
        }
        if self.closed {
            return Step::Fail(PoolError::PoolClosed);
        }
        let found = self.find_waiter(caller);
        let first = self.waiters.len() == 0 || self.waiters[0].caller == caller;
        if first && self.has_room() {
            if self.waiters.len() > 0 {
                self.waiters.remove(0);
            }
            assert(self@ == old(self)@.cancel(caller));
            return self.claim();
        }
        match found {
            Some(at) => {
                let deadline = self.waiters[at].deadline;
                let late = match deadline {
                    Some(limit) => now >= limit,
                    None => false,
                };
                if late {
                    self.waiters.remove(at);
                    Step::Fail(PoolError::PoolTimeout)
                } else {
                    Step::Wait(deadline)
                }
            },
            None => {
                let deadline = self.config.deadline(now);
                self.waiters.push(Waiter { caller, deadline });
                Step::Wait(deadline)
            },
        }
    }

    /// The manager has judged a connection that `acquire` handed over for
    /// validation: a usable one is `Ready`, an unusable one is to be
    /// destroyed (`Destroy`). The claimed slot stays claimed either way.
    pub fn validated(conn: C, valid: bool) -> (step: Step<C>)
        ensures
            step == validated(conn, valid),
    {
        if valid {
            Step::Ready(CheckedOutHandle { conn, invalid: false })
        } else {
            Step::Destroy(conn)
        }
    }

    /// The manager has destroyed the connection that failed validation. Only
    /// now is the replacement ordered: the answer is `Create`, and the
    /// claimed slot stays claimed for it.
    pub fn destroyed() -> (step: Step<C>)
        ensures
            step == destroyed::<C>(),
    {
        Step::Create
    }

    /// The manager was asked to create a connection and `outcome` is what
    /// came of it. A connection is `Ready` and the slot stays claimed; a
    /// failure gives the slot back and is `Fail(ManagerError)`.
    pub fn created(&mut self, outcome: Option<C>) -> (step: Step<C>)
        requires
            old(self).wf(),
        ensures
            final(self).wf(),
            final(self)@ == old(self)@.created(outcome).0,
            step == old(self)@.created(outcome).1,
    {
        match outcome {
            Some(conn) => Step::Ready(CheckedOutHandle { conn, invalid: false }),
            None => {
                if self.checked_out > 0 {
                    self.checked_out = self.checked_out - 1;
                }
                Step::Fail(PoolError::ManagerError)
            },
        }
    }

    /// Takes a handle back.
    ///
    /// The slot is given back. The connection returns to the idle stack,
    /// unless the handle is marked invalid or the pool is closed: then it is
    /// handed over in `destroy`. A handle that arrives while no slot is
    /// claimed is not this pool's: its connection goes to `destroy` and
    /// nothing changes. `wake` names the waiting caller that can be served
    /// now.
    pub fn release(&mut self, handle: CheckedOutHandle<C>) -> (released: Released<C>)
        requires
            old(self).wf(),
        ensures
            final(self).wf(),
            final(self)@ == old(self)@.release(handle).0,
            released == old(self)@.release(handle).1,
    {
        let CheckedOutHandle { conn, invalid } = handle;
        let destroy = if self.checked_out == 0 {
            Some(conn)
        } else {
            self.checked_out = self.checked_out - 1;
            if self.closed || invalid {
                Some(conn)
            } else {
                self.idle.push(conn);
                None
            }
        };
        Released { destroy, wake: self.next_ready() }
    }

    /// `caller` stops waiting. Nothing else changes. Answers whether the
    /// caller was in the queue.
    pub fn cancel(&mut self, caller: u64) -> (was_waiting: bool)
        requires
            old(self).wf(),
        ensures
            final(self).wf(),
            final(self)@ == old(self)@.cancel(caller),
            was_waiting == old(self)@.is_waiting(caller),
    {
        proof {
            lemma_step_keeps_invariant(self@, Op::Cancel { caller });
        }
        match self.find_waiter(caller) {
            Some(at) => {
                self.waiters.remove(at);
                true
            },
            None => false,
        }
    }

    /// Shuts the pool down: it is closed for good, the idle connections are
    /// handed over for destruction and the waiting callers are named so that
    /// they can be woken. Handles that are still out are destroyed as they
    /// come back.
    pub fn shutdown(&mut self) -> (out: Shutdown<C>)
        requires
            old(self).wf(),
        ensures
            final(self).wf(),
            final(self)@ == old(self)@.shutdown().0,
            out.destroy@ == old(self)@.shutdown().1,
            out.wake@ == old(self)@.shutdown().2,
    {
        let mut wake: Vec<u64> = Vec::new();
        let mut at: usize = 0;
        while at < self.waiters.len()
            invariant
                at <= self.waiters.len(),
                *self == *old(self),
                wake@ == self.waiters@.take(at as int).map_values(|w: Waiter| w.caller),
            decreases self.waiters.len() - at,
        {
            wake.push(self.waiters[at].caller);
            assert(self.waiters@.take(at + 1) == self.waiters@.take(at as int).push(
                self.waiters@[at as int],
            ));
            at += 1;
        }
        assert(self.waiters@.take(at as int) == self.waiters@);
        let mut destroy: Vec<C> = Vec::new();
        std::mem::swap(&mut self.idle, &mut destroy);
        self.waiters.clear();
        self.closed = true;
        Shutdown { destroy, wake }
    }
}

} // verus!
