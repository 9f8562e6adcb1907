use nickel_redis::config::PoolConfig;
use nickel_redis::step::{CheckedOutHandle, Probe, Step};
use nickel_redis::pool::ConnectionPool;

fn within_cap(pool: &ConnectionPool<u32>) {
    let live = pool.idle_count() as u64 + u64::from(pool.checked_out_count());
    assert!(live <= u64::from(pool.max_size()), "{} live connections", live);
}

/// Drives a pool of three through a fixed but tangled history of five
/// callers and checks the cap after every operation.
#[test]
fn cap_holds_after_every_operation() {
    let config = PoolConfig::new(3).with_acquire_timeout(40);
    let mut pool = ConnectionPool::construct(config, Probe::Usable(0u32)).unwrap();
    let mut next_conn = 1u32;
    let mut held: Vec<CheckedOutHandle<u32>> = Vec::new();
    let mut seed = 12345u64;
    for tick in 0..2_000u64 {
        seed = seed.wrapping_mul(6364136223846793005).wrapping_add(1442695040888963407);
        let caller = (seed >> 33) % 5;
        let choice = (seed >> 40) % 8;
        if tick == 1_500 {
            pool.shutdown();
        } else if choice < 4 {
            let mut step = pool.acquire(caller, tick);
            within_cap(&pool);
            loop {
                step = match step {
                    Step::Validate(conn) => ConnectionPool::validated(conn, conn % 3 != 0),
                    Step::Destroy(_) => ConnectionPool::destroyed(),
                    Step::Create => {
                        let outcome = if tick % 7 == 0 { None } else { Some(next_conn) };
                        next_conn += 1;
                        pool.created(outcome)
                    }
                    Step::Ready(taken) => {
                        held.push(taken);
                        break;
                    }
                    Step::Wait(_) | Step::Fail(_) => break,
                };
                within_cap(&pool);
            }
        } else if choice < 6 {
            if let Some(mut taken) = held.pop() {
                taken.invalid = tick % 5 == 0;
                pool.release(taken);
            }
        } else {
            pool.cancel(caller);
        }
        assert_eq!(pool.is_closed(), tick >= 1_500);
        within_cap(&pool);
        assert!(u64::from(pool.checked_out_count()) >= held.len() as u64);
    }
    assert!(pool.is_closed());
}
