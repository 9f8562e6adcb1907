use nickel_redis::config::PoolConfig;
use nickel_redis::error::PoolError;
use nickel_redis::step::{CheckedOutHandle, Probe, Step};
use nickel_redis::pool::ConnectionPool;

fn plain(max_size: u32) -> PoolConfig {
    PoolConfig::new(max_size).with_validate_on_checkout(false).with_acquire_timeout(100)
}

fn handle(conn: u32) -> CheckedOutHandle<u32> {
    CheckedOutHandle { conn, invalid: false }
}

#[test]
fn idle_connection_is_handed_out() {
    let mut pool = ConnectionPool::construct(plain(2), Probe::Usable(10u32)).unwrap();
    assert_eq!(pool.acquire(1, 0), Step::Ready(handle(10)));
    assert_eq!(pool.idle_count(), 0);
    assert_eq!(pool.checked_out_count(), 1);
}

#[test]
fn idle_connection_is_validated_first_when_configured() {
    let config = plain(2).with_validate_on_checkout(true);
    let mut pool = ConnectionPool::construct(config, Probe::Usable(10u32)).unwrap();
    assert_eq!(pool.acquire(1, 0), Step::Validate(10));
    assert_eq!(pool.idle_count(), 0);
    assert_eq!(pool.checked_out_count(), 1);
    assert_eq!(ConnectionPool::validated(10u32, true), Step::Ready(handle(10)));
}

#[test]
fn empty_pool_with_room_orders_a_creation() {
    let mut pool = ConnectionPool::construct(plain(2), Probe::Usable(10u32)).unwrap();
    assert_eq!(pool.acquire(1, 0), Step::Ready(handle(10)));
    assert_eq!(pool.acquire(2, 0), Step::Create);
    assert_eq!(pool.checked_out_count(), 2);
    assert_eq!(pool.created(Some(11)), Step::Ready(handle(11)));
    assert_eq!(pool.checked_out_count(), 2);
    assert_eq!(pool.idle_count(), 0);
}

#[test]
fn failed_creation_is_manager_error_and_frees_the_slot() {
    let mut pool = ConnectionPool::construct(plain(2), Probe::Usable(10u32)).unwrap();
    assert_eq!(pool.acquire(1, 0), Step::Ready(handle(10)));
    assert_eq!(pool.acquire(2, 0), Step::Create);
    assert_eq!(pool.checked_out_count(), 2);
    assert_eq!(pool.created(None), Step::Fail(PoolError::ManagerError));
    assert_eq!(pool.checked_out_count(), 1);
    assert!(pool.has_room());
    assert_eq!(pool.acquire(3, 0), Step::Create);
}

#[test]
fn failed_creation_with_nothing_claimed_changes_nothing() {
    let mut pool = ConnectionPool::construct(plain(2), Probe::Usable(10u32)).unwrap();
    assert_eq!(pool.created(None), Step::Fail(PoolError::ManagerError));
    assert_eq!(pool.checked_out_count(), 0);
    assert_eq!(pool.idle_count(), 1);
}

#[test]
fn failed_validation_destroys_then_replaces() {
    let config = plain(1).with_validate_on_checkout(true);
    let mut pool = ConnectionPool::construct(config, Probe::Usable(10u32)).unwrap();
    assert_eq!(pool.acquire(1, 0), Step::Validate(10));
    assert_eq!(ConnectionPool::validated(10u32, false), Step::Destroy(10));
    assert_eq!(pool.checked_out_count(), 1);
    assert_eq!(ConnectionPool::<u32>::destroyed(), Step::Create);
    assert_eq!(pool.checked_out_count(), 1);
    assert_eq!(pool.created(Some(11)), Step::Ready(handle(11)));
    assert_eq!(pool.checked_out_count(), 1);
    assert_eq!(pool.idle_count(), 0);
}

#[test]
fn failed_replacement_is_manager_error() {
    let config = plain(1).with_validate_on_checkout(true);
    let mut pool = ConnectionPool::construct(config, Probe::Usable(10u32)).unwrap();
    assert_eq!(pool.acquire(1, 0), Step::Validate(10));
    assert_eq!(ConnectionPool::validated(10u32, false), Step::Destroy(10));
    assert_eq!(ConnectionPool::<u32>::destroyed(), Step::Create);
    assert_eq!(pool.created(None), Step::Fail(PoolError::ManagerError));
    assert_eq!(pool.checked_out_count(), 0);
    assert_eq!(pool.idle_count(), 0);
    assert_eq!(pool.acquire(2, 0), Step::Create);
}

#[test]
fn most_recently_returned_connection_goes_out_first() {
    let mut pool = ConnectionPool::construct(plain(3), Probe::Usable(10u32)).unwrap();
    assert_eq!(pool.acquire(1, 0), Step::Ready(handle(10)));
    assert_eq!(pool.acquire(2, 0), Step::Create);
    assert_eq!(pool.created(Some(11)), Step::Ready(handle(11)));
    assert_eq!(pool.acquire(3, 0), Step::Create);
    assert_eq!(pool.created(Some(12)), Step::Ready(handle(12)));
    assert_eq!(pool.release(handle(11)).destroy, None);
    assert_eq!(pool.release(handle(10)).destroy, None);
    assert_eq!(pool.release(handle(12)).destroy, None);
    assert_eq!(pool.idle_count(), 3);
    assert_eq!(pool.acquire(4, 0), Step::Ready(handle(12)));
    assert_eq!(pool.acquire(5, 0), Step::Ready(handle(10)));
    assert_eq!(pool.acquire(6, 0), Step::Ready(handle(11)));
}

#[test]
fn sequential_cycles_on_a_pool_of_one_reuse_the_connection() {
    let mut pool = ConnectionPool::construct(plain(1), Probe::Usable(10u32)).unwrap();
    for round in 0..50u64 {
        match pool.acquire(round, round) {
            Step::Ready(taken) => {
                assert_eq!(taken, handle(10));
                assert_eq!(pool.checked_out_count(), 1);
                assert_eq!(pool.idle_count(), 0);
                let released = pool.release(taken);
                assert_eq!(released.destroy, None);
                assert_eq!(released.wake, None);
            }
            other => panic!("round {}: {:?}", round, other),
        }
        assert_eq!(pool.checked_out_count(), 0);
        assert_eq!(pool.idle_count(), 1);
    }
}

#[test]
fn sequential_cycles_with_passing_validation_reuse_the_connection() {
    let config = plain(1).with_validate_on_checkout(true);
    let mut pool = ConnectionPool::construct(config, Probe::Usable(10u32)).unwrap();
    for round in 0..50u64 {
        assert_eq!(pool.acquire(round, round), Step::Validate(10));
        match ConnectionPool::validated(10u32, true) {
            Step::Ready(taken) => {
                assert_eq!(pool.release(taken).destroy, None);
            }
            other => panic!("round {}: {:?}", round, other),
        }
        assert_eq!(pool.idle_count(), 1);
    }
}
