//! What holds of every pool, proved from the state machine.

use vstd::prelude::*;
use crate::config::PoolConfig;
use crate::error::{Failure, PoolError, Report};
use crate::model::{destroyed, expired, validated, PoolState};
use crate::step::{CheckedOutHandle, Step, Waiter};

verus! {

/// One critical section on a pool.
pub enum Op<C> {
    /// A caller asks for a connection, or asks again.
    Acquire { caller: u64, now: u64 },
    /// A caller reports what came of creating a connection.
    Created { outcome: Option<C> },
    /// A handle comes back.
    Release { handle: CheckedOutHandle<C> },
    /// A caller stops waiting.
    Cancel { caller: u64 },
    /// The pool is shut down.
    Shutdown,
}

/// The state after one operation.
pub open spec fn apply<C>(state: PoolState<C>, op: Op<C>) -> PoolState<C> {
    match op {
        Op::Acquire { caller, now } => state.acquire(caller, now).0,
        Op::Created { outcome } => state.created(outcome).0,
        Op::Release { handle } => state.release(handle).0,
        Op::Cancel { caller } => state.cancel(caller),
        Op::Shutdown => state.shutdown().0,
    }
}

/// The state after a history of operations, however the callers that issued
/// them were interleaved.
pub open spec fn run<C>(state: PoolState<C>, ops: Seq<Op<C>>) -> PoolState<C>
    decreases ops.len(),
{
    if ops.len() == 0 {
        state
    } else {
        apply(run(state, ops.drop_last()), ops.last())
    }
}

/// The step was a claim on a slot: a connection or the order to make one.
pub open spec fn is_served<C>(step: Step<C>) -> bool {
    step is Ready || step is Validate || step is Create
}

/// A caller uses the pool once and everything goes well: it acquires, any
/// validation succeeds, and it returns the handle in good order.
pub open spec fn visit<C>(state: PoolState<C>, caller: u64, now: u64) -> PoolState<C> {
    let (taken, step) = state.acquire(caller, now);
    match step {
        Step::Ready(handle) => taken.release(handle).0,
        Step::Validate(conn) => match validated(conn, true) {
            Step::Ready(handle) => taken.release(handle).0,
            _ => taken,
        },
        _ => taken,
    }
}

/// The state after a series of such visits, one after the other.
pub open spec fn visits<C>(state: PoolState<C>, callers: Seq<(u64, u64)>) -> PoolState<C>
    decreases callers.len(),
{
    if callers.len() == 0 {
        state
    } else {
        visit(visits(state, callers.drop_last()), callers.last().0, callers.last().1)
    }
}

/// Abandoning a wait has no effect on the pool beyond the queue: the caller
/// is gone from it, and everybody else keeps their order.
pub proof fn lemma_cancel_only_leaves_queue<C>(state: PoolState<C>, caller: u64)
    requires
        state.wf(),
    ensures
        state.cancel(caller).wf(),
        state.cancel(caller).idle == state.idle,
        state.cancel(caller).checked_out == state.checked_out,
        state.cancel(caller).closed == state.closed,
        state.cancel(caller).config == state.config,
        !state.cancel(caller).is_waiting(caller),
        !state.is_waiting(caller) ==> state.cancel(caller) == state,
        state.is_waiting(caller) ==> state.cancel(caller).waiters == state.waiters.remove(
            state.position(caller),
        ),
{
    if state.is_waiting(caller) {
        let at = state.position(caller);
        let rest = state.waiters.remove(at);
        assert forall|i: int| 0 <= i < rest.len() implies (#[trigger] rest[i])
            == state.waiters[if i < at { i } else { i + 1 }] by {}
        if state.cancel(caller).is_waiting(caller) {
            let i = state.cancel(caller).position(caller);
            assert(rest[i].caller == caller);
            assert(false);
        }
    }
}

/// Every operation keeps the pool's invariant and its configuration, and a
/// closed pool stays closed.
pub proof fn lemma_step_keeps_invariant<C>(state: PoolState<C>, op: Op<C>)
    requires
        state.wf(),
    ensures
        apply(state, op).wf(),
        apply(state, op).config == state.config,
        state.closed ==> apply(state, op).closed,
{
    match op {
        Op::Acquire { caller, now } => {
            lemma_cancel_only_leaves_queue(state, caller);
            if !state.closed && !(state.first_in_line(caller) && state.has_room())
                && !state.is_waiting(caller) {
                let queue = state.waiters.push(
                    Waiter { caller, deadline: state.config.deadline_from(now) },
                );
                assert forall|i: int, j: int| 0 <= i < j < queue.len() implies (
                #[trigger] queue[i]).caller != (#[trigger] queue[j]).caller by {
                    assert(queue[i] == state.waiters[i]);
                    if j < state.waiters.len() {
                        assert(queue[j] == state.waiters[j]);
                    }
                }
            }
        },
        Op::Created { outcome } => {},
        Op::Release { handle } => {},
        Op::Cancel { caller } => {
            lemma_cancel_only_leaves_queue(state, caller);
        },
        Op::Shutdown => {},
    }
}

/// Whatever the callers do and however their operations interleave, idle and
/// checked-out connections together never exceed the cap: the bound holds
/// after every single operation of every history.
pub proof fn lemma_capacity_never_exceeded<C>(state: PoolState<C>, ops: Seq<Op<C>>)
    requires
        state.wf(),
    ensures
        run(state, ops).wf(),
        run(state, ops).config == state.config,
        run(state, ops).idle.len() + run(state, ops).checked_out <= state.config.max_size,
        state.closed ==> run(state, ops).closed,
    decreases ops.len(),
{
    if ops.len() > 0 {
        lemma_capacity_never_exceeded(state, ops.drop_last());
        lemma_step_keeps_invariant(run(state, ops.drop_last()), ops.last());
    }
}

/// When each answer to an acquisition comes. The pool refuses exactly when
/// it is closed; it serves exactly when it is open, nobody is ahead of the
/// caller and there is room; a caller times out exactly when it cannot be
/// served and stands in the queue with its deadline reached; in every other
/// case the caller waits.
pub proof fn lemma_acquire_outcome<C>(state: PoolState<C>, caller: u64, now: u64)
    requires
        state.wf(),
    ensures
        ({
            let step = state.acquire(caller, now).1;
            let servable = !state.closed && state.first_in_line(caller) && state.has_room();
            let overdue = state.is_waiting(caller) && expired(
                state.waiters[state.position(caller)].deadline,
                now,
            );
            &&& step == Step::<C>::Fail(PoolError::PoolClosed) <==> state.closed
            &&& is_served(step) <==> servable
            &&& step == Step::<C>::Fail(PoolError::PoolTimeout) <==> !state.closed && !servable
                && overdue
            &&& step is Wait <==> !state.closed && !servable && !overdue
            &&& step is Validate ==> state.config.validate_on_checkout
            &&& step is Ready ==> !state.config.validate_on_checkout
            &&& step is Create ==> state.idle.len() == 0
            &&& !(step is Destroy)
            &&& !(step == Step::<C>::Fail(PoolError::ManagerError))
            &&& !(step == Step::<C>::Fail(PoolError::ConfigError))
        }),
{
    lemma_cancel_only_leaves_queue(state, caller);
}

/// A pool with an idle connection and nobody waiting hands that connection
/// out again, asks for no new one, and is back in the same state once the
/// handle has been returned in good order.
pub proof fn lemma_visit_reuses<C>(state: PoolState<C>, caller: u64, now: u64)
    requires
        state.wf(),
        !state.closed,
        state.waiters.len() == 0,
        state.idle.len() > 0,
    ensures
        state.config.validate_on_checkout ==> state.acquire(caller, now).1 == Step::Validate(
            state.idle.last(),
        ),
        !state.config.validate_on_checkout ==> state.acquire(caller, now).1 == Step::Ready(
            CheckedOutHandle { conn: state.idle.last(), invalid: false },
        ),
        visit(state, caller, now) == state,
{
    assert(!state.is_waiting(caller));
    let taken = state.acquire(caller, now).0;
    assert(taken.idle.push(state.idle.last()) =~= state.idle);
}

/// A series of visits that all go well leaves a pool that started with an
/// idle connection and an empty queue exactly as it was.
pub proof fn lemma_visits_restore<C>(state: PoolState<C>, callers: Seq<(u64, u64)>)
    requires
        state.wf(),
        !state.closed,
        state.waiters.len() == 0,
        state.idle.len() > 0,
    ensures
        visits(state, callers) == state,
    decreases callers.len(),
{
    if callers.len() > 0 {
        lemma_visits_restore(state, callers.drop_last());
        lemma_visit_reuses(state, callers.last().0, callers.last().1);
    }
}

/// Sequential reuse: however many callers acquire and release one after the
/// other, a pool that starts with an idle connection and an empty queue
/// never orders a connection to be created. Each visit finds the pool as the
/// first one found it and is given the very same connection. With a cap of
/// one this is the single connection the pool was built with.
pub proof fn lemma_sequential_reuse<C>(state: PoolState<C>, callers: Seq<(u64, u64)>, k: int)
    requires
        state.wf(),
        !state.closed,
        state.waiters.len() == 0,
        state.idle.len() > 0,
        0 <= k < callers.len(),
    ensures
        ({
            let before = visits(state, callers.take(k));
            let step = before.acquire(callers[k].0, callers[k].1).1;
            &&& before == state
            &&& !(step is Create) && !(step is Destroy)
            &&& step == Step::Validate(state.idle.last()) || step == Step::Ready(
                CheckedOutHandle { conn: state.idle.last(), invalid: false },
            )
        }),
{
    lemma_visits_restore(state, callers.take(k));
    lemma_visit_reuses(state, callers[k].0, callers[k].1);
}

/// A pool with a cap of one never has a second connection made while its
/// callers come one after the other and all goes well: every one of them is
/// given the connection the pool was built with.
pub proof fn lemma_pool_of_one_reuses<C>(
    config: PoolConfig,
    probe: C,
    callers: Seq<(u64, u64)>,
    k: int,
)
    requires
        config.max_size == 1,
        0 <= k < callers.len(),
    ensures
        ({
            let built = PoolState::initial(config, probe);
            let before = visits(built, callers.take(k));
            let step = before.acquire(callers[k].0, callers[k].1).1;
            &&& before == built
            &&& !(step is Create) && !(step is Destroy)
            &&& step == Step::Validate(probe) || step == Step::Ready(
                CheckedOutHandle { conn: probe, invalid: false },
            )
        }),
{
    let built = PoolState::initial(config, probe);
    assert(built.idle.last() == probe);
    lemma_sequential_reuse(built, callers, k);
}

/// A pool without room serves nobody: while every slot is claimed and
/// nothing is idle, an acquisition can only wait or time out, and it leaves
/// the idle stack and the number of claimed slots as they were.
pub proof fn lemma_full_pool_serves_nobody<C>(state: PoolState<C>, caller: u64, now: u64)
    requires
        state.wf(),
        !state.closed,
        !state.has_room(),
    ensures
        !is_served(state.acquire(caller, now).1),
        state.acquire(caller, now).1 is Wait || state.acquire(caller, now).1 == Step::<C>::Fail(
            PoolError::PoolTimeout,
        ),
        state.acquire(caller, now).0.idle == state.idle,
        state.acquire(caller, now).0.checked_out == state.checked_out,
        !state.is_waiting(caller) ==> state.acquire(caller, now).1 == Step::<C>::Wait(
            state.config.deadline_from(now),
        ),
{
    lemma_cancel_only_leaves_queue(state, caller);
}

/// The operation gives no slot back and does not close the pool: it is an
/// acquisition, an abandoned wait, or the report of a connection that was
/// created.
pub open spec fn keeps_slots<C>(op: Op<C>) -> bool {
    ||| op is Acquire
    ||| op is Cancel
    ||| op matches Op::Created { outcome } && outcome is Some
}

/// Only giving a slot back makes room. Once every slot of an open pool is
/// claimed and nothing is idle, no caller is served, whoever asks and however
/// often, until a handle is returned or a creation fails: through any history
/// without such an operation the pool stays exactly as full.
pub proof fn lemma_full_pool_waits_for_a_release<C>(
    state: PoolState<C>,
    ops: Seq<Op<C>>,
    caller: u64,
    now: u64,
)
    requires
        state.wf(),
        !state.closed,
        !state.has_room(),
        forall|i: int| 0 <= i < ops.len() ==> keeps_slots(#[trigger] ops[i]),
    ensures
        run(state, ops).wf(),
        !run(state, ops).closed,
        !run(state, ops).has_room(),
        run(state, ops).idle == state.idle,
        run(state, ops).checked_out == state.checked_out,
        !is_served(run(state, ops).acquire(caller, now).1),
    decreases ops.len(),
{
    if ops.len() > 0 {
        let earlier = ops.drop_last();
        assert forall|i: int| 0 <= i < earlier.len() implies keeps_slots(
            #[trigger] earlier[i],
        ) by {
            assert(earlier[i] == ops[i]);
        }
        lemma_full_pool_waits_for_a_release(state, earlier, caller, now);
        let before = run(state, earlier);
        let op = ops.last();
        assert(keeps_slots(op));
        lemma_step_keeps_invariant(before, op);
        match op {
            Op::Acquire { caller: who, now: when } => {
                lemma_full_pool_serves_nobody(before, who, when);
            },
            Op::Cancel { caller: who } => {
                lemma_cancel_only_leaves_queue(before, who);
            },
            _ => {},
        }
    }
    lemma_full_pool_serves_nobody(run(state, ops), caller, now);
}

/// When a handle comes back in good order to an open pool where callers
/// wait, the caller at the head of the queue is the one to wake, and when it
/// asks again it is given the connection that was just returned.
pub proof fn lemma_release_serves_head<C>(
    state: PoolState<C>,
    handle: CheckedOutHandle<C>,
    now: u64,
)
    requires
        state.wf(),
        !state.closed,
        state.checked_out > 0,
        state.waiters.len() > 0,
        !handle.invalid,
    ensures
        ({
            let (returned, released) = state.release(handle);
            let head = state.waiters[0].caller;
            let (after, step) = returned.acquire(head, now);
            &&& released.wake == Some(head)
            &&& released.destroy is None
            &&& step == validated(handle.conn, true) || step == Step::Validate(handle.conn)
            &&& after.waiters == state.waiters.skip(1)
            &&& after.idle == state.idle
            &&& after.checked_out == state.checked_out
        }),
{
    let (returned, released) = state.release(handle);
    let head = state.waiters[0].caller;
    assert(returned.waiters[0].caller == head);
    assert(returned.is_waiting(head));
    assert(returned.position(head) == 0);
    assert(returned.waiters.remove(0) =~= state.waiters.skip(1));
    assert(returned.idle.drop_last() =~= state.idle);
}

/// First come, first served: while somebody else is at the head of the
/// queue, a caller is never served, whether it is new or already waiting,
/// and the head keeps its place.
pub proof fn lemma_nobody_overtakes_the_head<C>(state: PoolState<C>, caller: u64, now: u64)
    requires
        state.wf(),
        !state.closed,
        state.waiters.len() > 0,
        state.waiters[0].caller != caller,
    ensures
        !is_served(state.acquire(caller, now).1),
        state.acquire(caller, now).0.waiters.len() > 0,
        state.acquire(caller, now).0.waiters[0] == state.waiters[0],
        state.acquire(caller, now).0.idle == state.idle,
        state.acquire(caller, now).0.checked_out == state.checked_out,
{
    if state.is_waiting(caller) {
        let at = state.position(caller);
        assert(at != 0);
    }
}

/// The queue is kept in order of arrival: two callers that wait before an
/// operation and still wait after it stand in the same order.
pub proof fn lemma_queue_keeps_order<C>(state: PoolState<C>, op: Op<C>, first: u64, second: u64)
    requires
        state.wf(),
        state.ahead_of(first, second),
        apply(state, op).is_waiting(first),
        apply(state, op).is_waiting(second),
    ensures
        apply(state, op).ahead_of(first, second),
{
    let next = apply(state, op);
    let (i, j) = choose|i: int, j: int|
        0 <= i < j < state.waiters.len() && (#[trigger] state.waiters[i]).caller == first && (
        #[trigger] state.waiters[j]).caller == second;
    if next.waiters == state.waiters {
        assert(next.waiters[i].caller == first && next.waiters[j].caller == second);
    } else {
        match op {
            Op::Acquire { caller, now } => {
                if state.is_waiting(caller) {
                    lemma_cancel_only_leaves_queue(state, caller);
                    assert(next.waiters == state.cancel(caller).waiters);
                    lemma_removal_keeps_order(state, caller, i, j);
                } else {
                    assert(state.cancel(caller) == state);
                    assert(next.waiters[i] == state.waiters[i]);
                    assert(next.waiters[j] == state.waiters[j]);
                }
            },
            Op::Cancel { caller } => {
                lemma_cancel_only_leaves_queue(state, caller);
                lemma_removal_keeps_order(state, caller, i, j);
            },
            _ => {},
        }
    }
}

/// Taking `gone` out of the queue keeps the callers at `i` and `j`, if they
/// are others, in their order.
proof fn lemma_removal_keeps_order<C>(state: PoolState<C>, gone: u64, i: int, j: int)
    requires
        state.wf(),
        state.is_waiting(gone),
        0 <= i < j < state.waiters.len(),
        state.cancel(gone).is_waiting(state.waiters[i].caller),
        state.cancel(gone).is_waiting(state.waiters[j].caller),
    ensures
        state.cancel(gone).ahead_of(state.waiters[i].caller, state.waiters[j].caller),
{
    lemma_cancel_only_leaves_queue(state, gone);
    let at = state.position(gone);
    let rest = state.cancel(gone).waiters;
    assert(rest == state.waiters.remove(at));
    assert(state.waiters[i].caller != gone);
    assert(state.waiters[j].caller != gone);
    let ni = if i < at { i } else { i - 1 };
    let nj = if j < at { j } else { j - 1 };
    assert(rest[ni] == state.waiters[i]);
    assert(rest[nj] == state.waiters[j]);
}

/// A caller that joins the queue joins at its end: everybody who was already
/// waiting is ahead of it.
pub proof fn lemma_newcomer_joins_at_the_end<C>(
    state: PoolState<C>,
    caller: u64,
    now: u64,
    earlier: u64,
)
    requires
        state.wf(),
        !state.is_waiting(caller),
        state.is_waiting(earlier),
        state.acquire(caller, now).1 is Wait,
    ensures
        state.acquire(caller, now).0.ahead_of(earlier, caller),
        state.acquire(caller, now).0.waiters.len() == state.waiters.len() + 1,
        state.acquire(caller, now).0.waiters.last().caller == caller,
{
    let next = state.acquire(caller, now).0;
    let i = state.position(earlier);
    let j = state.waiters.len() as int;
    assert(next.waiters[i] == state.waiters[i]);
    assert(next.waiters[j].caller == caller);
}

/// A caller whose deadline has come and that cannot be served times out,
/// and the timeout takes nothing with it: the idle stack and the number of
/// claimed slots are as before, and the caller is out of the queue.
pub proof fn lemma_timeout_consumes_nothing<C>(state: PoolState<C>, caller: u64, now: u64)
    requires
        state.wf(),
        !state.closed,
        state.is_waiting(caller),
        expired(state.waiters[state.position(caller)].deadline, now),
        !(state.first_in_line(caller) && state.has_room()),
    ensures
        state.acquire(caller, now).1 == Step::<C>::Fail(PoolError::PoolTimeout),
        state.acquire(caller, now).0 == state.cancel(caller),
        state.acquire(caller, now).0.idle == state.idle,
        state.acquire(caller, now).0.checked_out == state.checked_out,
        !state.acquire(caller, now).0.is_waiting(caller),
        state.acquire(caller, now).0.wf(),
{
    lemma_cancel_only_leaves_queue(state, caller);
}

/// Shutting down hands over exactly the connections that were idle, each
/// once and in their order, names exactly the callers that were waiting, and
/// leaves the pool closed and empty.
pub proof fn lemma_shutdown_destroys_idle<C>(state: PoolState<C>)
    requires
        state.wf(),
    ensures
        state.shutdown().0.wf(),
        state.shutdown().0.closed,
        state.shutdown().1 == state.idle,
        state.shutdown().2.len() == state.waiters.len(),
        forall|i: int|
            0 <= i < state.waiters.len() ==> state.shutdown().2[i] == (
            #[trigger] state.waiters[i]).caller,
        state.shutdown().0.idle.len() == 0,
        state.shutdown().0.waiters.len() == 0,
        state.shutdown().0.checked_out == state.checked_out,
{
}

/// Once the pool has been shut down it refuses every acquisition with
/// `PoolClosed`, whatever happened in between, and a connection that was
/// handed over for destruction at shutdown is never handed over again:
/// nothing is idle any more, so a later shutdown has nothing to destroy.
pub proof fn lemma_closed_pool_refuses<C>(
    state: PoolState<C>,
    ops: Seq<Op<C>>,
    caller: u64,
    now: u64,
)
    requires
        state.wf(),
    ensures
        ({
            let later = run(state.shutdown().0, ops);
            &&& later.closed
            &&& later.acquire(caller, now) == (later, Step::<C>::Fail(PoolError::PoolClosed))
            &&& later.idle.len() == 0
            &&& later.shutdown().1.len() == 0
        }),
{
    lemma_shutdown_destroys_idle(state);
    lemma_capacity_never_exceeded(state.shutdown().0, ops);
}

/// A handle that comes back to a closed pool is not pooled: its connection
/// is handed over for destruction and its slot is given back.
pub proof fn lemma_release_after_shutdown_destroys<C>(
    state: PoolState<C>,
    handle: CheckedOutHandle<C>,
)
    requires
        state.wf(),
        state.closed,
    ensures
        state.release(handle).1.destroy == Some(handle.conn),
        state.release(handle).0.idle.len() == 0,
        state.checked_out > 0 ==> state.release(handle).0.checked_out == state.checked_out - 1,
{
}

/// A connection that fails validation on checkout is replaced without the
/// caller noticing. The pool first orders the stale connection to be
/// destroyed, and that order holds no order to create. The order to create
/// is the answer to the report that the destruction is done. The replacement
/// then goes to the caller as a valid handle. From the claim to the handle
/// the caller holds exactly one slot.
pub proof fn lemma_failed_validation_replaces<C>(
    state: PoolState<C>,
    caller: u64,
    now: u64,
    fresh: C,
)
    requires
        state.wf(),
        !state.closed,
        state.config.validate_on_checkout,
        state.first_in_line(caller),
        state.idle.len() > 0,
    ensures
        ({
            let (taken, step) = state.acquire(caller, now);
            let stale = state.idle.last();
            &&& step == Step::Validate(stale)
            &&& validated(stale, false) == Step::Destroy(stale)
            &&& !(validated(stale, false) is Create)
            &&& destroyed::<C>() == Step::<C>::Create
            &&& taken.created(Some(fresh)) == (
                taken,
                Step::Ready(CheckedOutHandle { conn: fresh, invalid: false }),
            )
            &&& taken.checked_out == state.checked_out + 1
            &&& taken.idle == state.idle.drop_last()
            &&& taken.wf()
        }),
{
    lemma_cancel_only_leaves_queue(state, caller);
}

/// The error handler never hears what a caller is told, and nothing is
/// dropped: every failure at the manager is reported to exactly one of the
/// two. The handler gets those that reach no caller, a failed validation
/// and a failed destruction; a failed probe and a failed creation are
/// returned to the caller they stopped, as `ConfigError` and `ManagerError`.
pub proof fn lemma_failures_are_reported_once(failure: Failure)
    ensures
        failure.report_to() is Handler <==> failure is Validation || failure is Destruction,
        failure.report_to() is Caller <==> failure is Probe || failure is Creation,
        failure is Probe ==> failure.report_to() == Report::Caller(PoolError::ConfigError),
        failure is Creation ==> failure.report_to() == Report::Caller(PoolError::ManagerError),
        !(failure.report_to() is Handler && failure.report_to() is Caller),
{
}

/// A failed creation costs no slot: the claim made for it is undone, and
/// with it the numbers are what they were before the caller asked.
pub proof fn lemma_failed_creation_frees_slot<C>(state: PoolState<C>, caller: u64, now: u64)
    requires
        state.wf(),
        !state.closed,
        state.first_in_line(caller),
        state.idle.len() == 0,
        state.checked_out < state.config.max_size,
    ensures
        ({
            let (taken, step) = state.acquire(caller, now);
            let (after, outcome) = taken.created(None);
            &&& step is Create
            &&& taken.checked_out == state.checked_out + 1
            &&& outcome == Step::<C>::Fail(PoolError::ManagerError)
            &&& after.checked_out == state.checked_out
            &&& after.idle == state.idle
            &&& after.wf()
        }),
{
    lemma_cancel_only_leaves_queue(state, caller);
}

} // verus!
