//! Tests of generation tokens.
//!
//! No test relies on the allocator handing out an address again: a value that comes back is made
//! either by storing the same handle, or by moving the generation on at an unchanged address.

use std::sync::atomic::{AtomicUsize, Ordering};
use std::sync::{Arc, Mutex, RwLock, Weak};

use adaptive_barrier::{Barrier, PanicMode};
use crossbeam_utils::thread;

use arc_swap::{ArcSwap, ArcSwapAny, ArcSwapOption, Guard, Observation, RefCnt};

type As<T> = ArcSwap<T>;
type Aso<T> = ArcSwapOption<T>;

/// A storage that threads share: every operation has it for itself.
struct Shared<T: RefCnt>(Mutex<ArcSwapAny<T>>);

impl<T: RefCnt> Shared<T> {
    fn new(storage: ArcSwapAny<T>) -> Self {
        Shared(Mutex::new(storage))
    }

    fn load(&self) -> Guard<T> {
        self.0.lock().unwrap().load()
    }

    fn load_observed(&self) -> (Guard<T>, Observation<T>) {
        self.0.lock().unwrap().load_observed()
    }

    fn store(&self, new: T) {
        self.0.lock().unwrap().store(new);
    }

    fn compare_exchange_observed(
        &self,
        token: Observation<T>,
        new: T,
    ) -> Result<Guard<T>, Observation<T>> {
        self.0.lock().unwrap().compare_exchange_observed(token, new)
    }

    fn current_generation(&self) -> usize {
        self.0.lock().unwrap().current_generation()
    }
}

/// A handle that does not keep its value alive.
#[derive(Clone, Debug)]
struct WeakHandle<V>(Weak<V>);

impl<V> RefCnt for WeakHandle<V> {
    type Base = V;

    fn is_null(&self) -> bool {
        self.0.ptr_eq(&Weak::new())
    }

    fn as_ptr(me: &Self) -> usize {
        if me.is_null() {
            0
        } else {
            Weak::as_ptr(&me.0).addr()
        }
    }

    fn inc(me: &Self) -> Self {
        WeakHandle(Weak::clone(&me.0))
    }
}

/// Keeps a value at hand, and fetches another one when the publication has changed.
struct Cache<T: RefCnt> {
    shared: Arc<Shared<T>>,
    cached: T,
    token: Observation<T>,
}

impl<T: RefCnt> Cache<T> {
    fn new(shared: Arc<Shared<T>>) -> Self {
        let (guard, token) = shared.load_observed();
        Cache {
            shared,
            cached: Guard::into_inner(guard),
            token,
        }
    }

    fn load(&mut self) -> &T {
        let (guard, token) = self.shared.load_observed();
        if token != self.token {
            self.cached = Guard::into_inner(guard);
            self.token = token;
        }
        &self.cached
    }
}

/// Counts in `.0` when it is dropped.
struct Track(Arc<AtomicUsize>, u32);

impl Drop for Track {
    fn drop(&mut self) {
        self.0.fetch_add(1, Ordering::SeqCst);
    }
}

fn assert_send_sync<T: Send + Sync>() {}

/// The generation of a new storage is 0.
#[test]
fn initial_generation_is_zero() {
    let shared = As::from_pointee(1u32);
    let (guard, observation) = shared.load_observed();
    assert_eq!(1, **guard);
    assert_eq!(
        0,
        observation.generation(),
        "fresh storage must start at gen 0"
    );
    assert_eq!(
        shared.current_generation(),
        observation.generation(),
        "load_observed must report the live generation",
    );
}

/// Loads of an idle storage describe the same publication.
#[test]
fn repeated_loads_stable() {
    let shared = As::from_pointee(1u32);
    let (_, first) = shared.load_observed();
    for _ in 0..100 {
        let (_, again) = shared.load_observed();
        assert_eq!(first, again, "idle storage must keep the same observation");
    }
}

/// Storing the same handle twice makes two generations.
#[test]
fn same_arc_twice_is_two_generations() {
    let mut shared = As::from_pointee(1u32);
    let value = Arc::new(2u32);
    shared.store(Arc::clone(&value));
    let (_, gen_one) = shared.load_observed();
    shared.store(Arc::clone(&value));
    let (_, gen_two) = shared.load_observed();
    assert_eq!(
        gen_one.generation() + 1,
        gen_two.generation(),
        "re-storing the identical Arc must advance the generation",
    );
    assert!(
        gen_one.same_address(&gen_two),
        "the address is identical, only the generation differs",
    );
    assert_ne!(gen_one, gen_two);
}

/// Every write that takes place counts once, and one that does not take place never.
#[test]
fn every_publication_bumps_once() {
    let mut shared = As::from_pointee(0u32);
    assert_eq!(0, shared.current_generation());

    drop(shared.swap(Arc::new(1)));
    assert_eq!(1, shared.current_generation());

    shared.store(Arc::new(2));
    assert_eq!(2, shared.current_generation());

    let (_, current) = shared.load_observed();
    let new_arc = Arc::new(3u32);
    let prev = shared.compare_exchange_observed(current, Arc::clone(&new_arc));
    assert!(prev.is_ok(), "fresh observation must commit");
    assert_eq!(3, shared.current_generation());

    let retry = shared.compare_exchange_observed(current, Arc::new(4));
    assert!(retry.is_err(), "consumed token must be rejected");
    assert_eq!(
        3,
        shared.current_generation(),
        "failed conditional update must not bump the generation",
    );

    let loaded = shared.load_full();
    let old = shared.compare_and_swap(&loaded, Arc::new(5));
    assert_eq!(3, **old);
    assert_eq!(4, shared.current_generation());

    shared.rcu(|v| **v + 1);
    assert_eq!(5, shared.current_generation());
}

/// `None` is a publication with a generation of its own.
#[test]
fn none_has_a_generation() {
    let mut shared: Aso<u32> = ArcSwapOption::empty();
    let (guard, none_token) = shared.load_observed();
    assert!(guard.is_none());
    assert_eq!(0, none_token.generation());
    assert!(none_token.same_address(&core::ptr::null::<u32>().addr()));

    shared.store(Some(Arc::new(1)));
    assert_eq!(1, shared.load_observed().1.generation());
    shared.store(None);
    assert_eq!(2, shared.load_observed().1.generation());

    let committed = shared.compare_exchange_observed(none_token, Some(Arc::new(2)));
    assert!(committed.is_err(), "the stale None token must not commit");
    let fresh_none = shared.load_observed().1;
    assert!(shared
        .compare_exchange_observed(fresh_none, Some(Arc::new(3)))
        .is_ok());
    assert_eq!(3, **shared.load().as_ref().expect("stored Some"));
}

/// A token of the same address and an older generation is refused, and the refusal says so.
#[test]
fn synthetic_aba_same_address_rejected() {
    let mut shared = As::from_pointee(1u32);
    let value = Arc::new(2u32);
    shared.store(Arc::clone(&value));
    let (_, observation) = shared.load_observed();

    shared.force_generation(observation.generation() + 2);
    let result = shared.compare_exchange_observed(observation, Arc::new(99));
    let current = match result {
        Err(current) => current,
        Ok(_) => panic!("ABA token with same address must not commit"),
    };
    assert!(
        observation.same_address(&current),
        "the failure must visibly be an ABA: address equal, generation {} != {}",
        observation.generation(),
        current.generation(),
    );
    assert_ne!(observation, current);
    assert_eq!(2, **shared.load(), "nothing must have been stored");
}

/// After A, B and A again, each a value of its own, the first token of A is refused.
#[test]
fn toggle_a_b_a_distinct_allocations_rejected() {
    let mut shared = As::from_pointee(0u32);
    let a1 = Arc::new(7u32);
    shared.store(Arc::clone(&a1));
    let (_, token) = shared.load_observed();

    let b = Arc::new(7u32);
    let a2 = Arc::new(7u32);
    assert_ne!(
        Arc::as_ptr(&a1),
        Arc::as_ptr(&a2),
        "test needs distinct Arcs"
    );
    shared.store(b);
    shared.store(a2);

    let result = shared.compare_exchange_observed(token, Arc::new(8));
    assert!(result.is_err(), "token from before A-B-A must be rejected");
    let current = result.err().unwrap();
    assert!(
        !token.same_address(&current),
        "distinct allocations differ in address"
    );

    let fresh = shared.load_observed().1;
    let prev = shared
        .compare_exchange_observed(fresh, Arc::new(8))
        .expect("fresh token commits");
    assert_eq!(7, **prev);
    drop(prev);
    assert_eq!(8, **shared.load());
}

/// A reader holds a guard and a token while a writer goes from A to B and back.
#[test]
fn deterministic_aba_with_pinned_interleaving() {
    let barrier = Barrier::new(PanicMode::Poison);
    let shared = Shared::new(As::from_pointee(10u32));

    thread::scope(|scope| {
        let mut reader_barrier = barrier.clone();
        let reader_shared = &shared;
        scope.spawn(move |_| {
            let (guard, token) = reader_shared.load_observed();
            assert_eq!(10, **guard);
            reader_barrier.wait();

            reader_barrier.wait();
            let result = reader_shared.compare_exchange_observed(token, Arc::new(20));
            assert!(result.is_err(), "held-guard token must not survive A-B-A");
            assert_eq!(10, **reader_shared.load(), "writer restored numeric value");
            drop(guard);
        });

        let mut writer_barrier = barrier.clone();
        let writer_shared = &shared;
        scope.spawn(move |_| {
            writer_barrier.wait();
            writer_shared.store(Arc::new(11));
            writer_shared.store(Arc::new(10));
            writer_barrier.wait();
        });

        drop(barrier);
    })
    .expect("scoped threads must not panic");

    assert!(shared.current_generation() >= 2);
}

/// While threads write, an observer sees consistent pairs and generations that do not go back.
#[test]
fn concurrent_publications_monotonic_generations() {
    const THREADS: usize = 4;
    const PER_THREAD: usize = 500;
    let mut barrier = Barrier::new(PanicMode::Poison);
    let shared = Arc::new(Shared::new(As::from_pointee(0usize)));

    thread::scope(|scope| {
        for t in 0..THREADS {
            let mut barrier = barrier.clone();
            let shared = Arc::clone(&shared);
            scope.spawn(move |_| {
                barrier.wait();
                for i in 0..PER_THREAD {
                    shared.store(Arc::new(t * PER_THREAD + i));
                }
            });
        }
        let shared = Arc::clone(&shared);
        scope.spawn(move |_| {
            let mut last_generation = 0usize;
            let mut last_ptr = shared.load_observed().1.ptr_addr();
            for _ in 0..THREADS * PER_THREAD * 4 {
                let (guard, observation) = shared.load_observed();
                assert_eq!(
                    Arc::as_ptr(&*guard) as usize,
                    observation.ptr_addr(),
                    "load_observed returned an inconsistent (guard, token) pair",
                );
                if observation.generation() != last_generation || observation.ptr_addr() != last_ptr
                {
                    assert!(
                        observation.generation() >= last_generation,
                        "generation went backwards: {} -> {}",
                        last_generation,
                        observation.generation(),
                    );
                    last_generation = observation.generation();
                    last_ptr = observation.ptr_addr();
                }
                std::hint::spin_loop();
            }
        });
        for _ in 0..PER_THREAD {
            barrier.wait();
        }
    })
    .expect("scoped threads must not panic");

    assert_eq!(THREADS * PER_THREAD, shared.current_generation());
}

/// Of many racers with one token exactly one commits.
#[test]
fn racing_observed_cas_only_one_commits_per_round() {
    const ROUNDS: usize = 50;
    const RACERS: usize = 6;
    let shared = Arc::new(Shared::new(As::from_pointee(0usize)));

    for round in 0..ROUNDS {
        let token = shared.load_observed().1;
        let winners = Arc::new(AtomicUsize::new(0));
        let barrier = Barrier::new(PanicMode::Poison);
        let handles: Vec<_> = (0..RACERS)
            .map(|_| {
                let barrier = barrier.clone();
                let shared = Arc::clone(&shared);
                let winners = Arc::clone(&winners);
                (barrier, shared, winners)
            })
            .collect();
        drop(barrier);

        thread::scope(|scope| {
            for (mut barrier, shared, winners) in handles {
                scope.spawn(move |_| {
                    barrier.wait();
                    if shared
                        .compare_exchange_observed(token, Arc::new(round + 1))
                        .is_ok()
                    {
                        winners.fetch_add(1, Ordering::SeqCst);
                    }
                });
            }
        })
        .expect("scoped threads must not panic");

        assert_eq!(
            1,
            winners.load(Ordering::SeqCst),
            "round {round}: exactly one racer must commit",
        );
        assert_eq!(round + 1, **shared.load(), "round {round}: committed value");
    }
}

/// At the last generation no token commits any more, and writes no longer count.
#[test]
fn saturation_is_terminal() {
    let mut shared = As::from_pointee(1u32);
    shared.store(Arc::new(2));
    shared.force_generation(usize::MAX);

    let (_, saturated) = shared.load_observed();
    assert!(
        saturated.is_saturated(),
        "forced generation must read as saturated"
    );

    let result = shared.compare_exchange_observed(saturated, Arc::new(3));
    assert!(result.is_err(), "saturated token must never commit");
    assert_eq!(2, **shared.load(), "pointer must remain unchanged");

    shared.store(Arc::new(4));
    assert_eq!(
        usize::MAX,
        shared.current_generation(),
        "generation must saturate, not wrap"
    );
    assert_eq!(4, **shared.load());

    let (_, crafted) = shared.load_observed();
    assert_eq!(usize::MAX, crafted.generation());
    assert!(shared
        .compare_exchange_observed(crafted, Arc::new(5))
        .is_err());
    assert_eq!(4, **shared.load());
}

/// One generation before that, an update still takes place.
#[test]
fn last_real_generation_still_commits() {
    let mut shared = As::from_pointee(0u32);
    shared.force_generation(usize::MAX - 1);
    let (_, token) = shared.load_observed();
    assert!(shared.compare_exchange_observed(token, Arc::new(1)).is_ok());
    assert_eq!(usize::MAX, shared.current_generation());
    assert_eq!(1, **shared.load());
}

/// A refused value is let go, and a stored one is held once.
#[test]
fn reference_counts() {
    let mut shared = As::from_pointee(1u32);
    let new_value = Arc::new(2u32);
    let token = shared.load_observed().1;

    shared.store(Arc::new(99));
    let failed = shared.compare_exchange_observed(token, Arc::clone(&new_value));
    assert!(failed.is_err());
    assert_eq!(
        1,
        Arc::strong_count(&new_value),
        "rejected new value must not gain a reference",
    );

    let fresh = shared.load_observed().1;
    let prev = shared
        .compare_exchange_observed(fresh, Arc::clone(&new_value))
        .unwrap();
    assert_eq!(
        2,
        Arc::strong_count(&new_value),
        "storage + cloned argument"
    );
    drop(prev);
    let loaded = shared.load_full();
    assert_eq!(
        3,
        Arc::strong_count(&loaded),
        "storage + clone argument + load"
    );
}

/// Tokens can be sent and shared wherever the handles can.
#[test]
fn observation_is_send_sync() {
    assert_send_sync::<Observation<Arc<u32>>>();
    assert_send_sync::<Observation<Option<Arc<u32>>>>();

    let shared = As::from_pointee(1u32);
    let token = Arc::new(Mutex::new(shared.load_observed().1));
    thread::scope(|scope| {
        for _ in 0..2 {
            let token = Arc::clone(&token);
            scope.spawn(move |_| {
                let guard = token.lock().unwrap();
                let _ = guard.generation();
            });
        }
    })
    .unwrap();
}

/// Tokens work for handles that do not keep their values alive, too.
#[test]
fn weak_observation_roundtrip() {
    let data = Arc::new("hello");
    let mut shared: ArcSwapAny<WeakHandle<&'static str>> =
        ArcSwapAny::new(WeakHandle(Arc::downgrade(&data)));
    let (_, token) = shared.load_observed();
    assert_eq!(0, token.generation());

    let other = Arc::new("world");
    shared.store(WeakHandle(Arc::downgrade(&other)));
    assert!(shared
        .compare_exchange_observed(token, WeakHandle(Arc::downgrade(&data)))
        .is_err());

    let fresh = shared.load_observed().1;
    let prev = shared
        .compare_exchange_observed(fresh, WeakHandle(Arc::downgrade(&data)))
        .expect("fresh weak token commits");
    let upgraded = Weak::clone(&prev.0).upgrade().expect("other still alive");
    assert_eq!("world", *upgraded);

    shared.store(WeakHandle(Weak::new()));
    let (_, none_token) = shared.load_observed();
    assert!(none_token.same_address(&core::ptr::null::<u32>().addr()));
    assert!(shared
        .compare_exchange_observed(none_token, WeakHandle(Arc::downgrade(&data)))
        .is_ok());
}

/// Tokens work while many guards are held.
#[test]
fn works_with_test_strategy() {
    let mut shared: ArcSwapAny<Arc<u32>> = ArcSwapAny::from(Arc::new(1u32));
    let _guards: Vec<_> = (0..64).map(|_| shared.load()).collect();
    let token = shared.load_observed().1;
    assert!(shared.compare_exchange_observed(token, Arc::new(2)).is_ok());
    assert_eq!(2, **shared.load());
}

/// A cache follows what is published.
#[test]
fn cache_interoperation() {
    let shared = Arc::new(Shared::new(As::from_pointee(1u32)));
    let mut cache = Cache::new(Arc::clone(&shared));
    assert_eq!(1, **cache.load());
    shared.store(Arc::new(2));
    assert_eq!(2, **cache.load(), "cache refreshes to the new publication");
    let token_taken_after = shared.load_observed().1;
    shared.store(Arc::new(3));
    assert!(shared
        .compare_exchange_observed(token_taken_after, Arc::new(4))
        .is_err());
    assert_eq!(3, **cache.load());
    let fresh = shared.load_observed().1;
    assert!(shared.compare_exchange_observed(fresh, Arc::new(4)).is_ok());
    assert_eq!(4, **cache.load());
}

/// A guard keeps its value alive across writes, and lets it go when it is dropped.
#[test]
fn guard_held_across_publications() {
    let dropped = Arc::new(AtomicUsize::new(0));

    let mut shared = As::from(Arc::new(Track(Arc::clone(&dropped), 0)));
    let guard = shared.load();
    assert_eq!(0, guard.1);
    assert_eq!(
        0,
        dropped.load(Ordering::SeqCst),
        "nothing dropped before any publication"
    );

    shared.store(Arc::new(Track(Arc::clone(&dropped), 1)));
    assert_eq!(
        0,
        dropped.load(Ordering::SeqCst),
        "the guarded publication stays alive"
    );

    assert_eq!(1, shared.current_generation());

    drop(guard);
    shared.store(Arc::new(Track(Arc::clone(&dropped), 2)));
    assert_eq!(
        2,
        dropped.load(Ordering::SeqCst),
        "both superseded values must be reclaimed after the guard is gone",
    );

    let token = shared.load_observed().1;
    assert!(shared
        .compare_exchange_observed(token, Arc::new(Track(Arc::clone(&dropped), 3)))
        .is_ok());
    drop(shared);
}

/// While threads toggle the value, an update takes place only at the observed publication.
#[test]
fn bulk_toggle_no_ghost_success() {
    const TOGGLERS: usize = 3;
    const CYCLES: usize = 100;
    let barrier = Barrier::new(PanicMode::Poison);
    let shared = Arc::new(Shared::new(As::from_pointee(0u32)));
    let successes = Arc::new(AtomicUsize::new(0));
    let ghost_failures = Arc::new(AtomicUsize::new(0));

    thread::scope(|scope| {
        for t in 0..TOGGLERS {
            let mut barrier = barrier.clone();
            let shared = Arc::clone(&shared);
            scope.spawn(move |_| {
                for c in 0..CYCLES {
                    barrier.wait();
                    shared.store(Arc::new(((t * CYCLES + c) % 2) as u32));
                }
            });
        }
        let mut observer_barrier = barrier.clone();
        drop(barrier);
        let shared = Arc::clone(&shared);
        let successes = Arc::clone(&successes);
        let ghost_failures = Arc::clone(&ghost_failures);
        scope.spawn(move |_| {
            for _ in 0..CYCLES {
                observer_barrier.wait();
                let (_, token) = shared.load_observed();
                let target = Arc::new(128);
                match shared.compare_exchange_observed(token, target) {
                    Ok(prev) => {
                        assert_eq!(token.ptr_addr(), Arc::as_ptr(&prev) as usize);
                        successes.fetch_add(1, Ordering::SeqCst);
                    }
                    Err(current) => {
                        if current.generation() == token.generation()
                            && current.ptr_addr() == token.ptr_addr()
                        {
                            ghost_failures.fetch_add(1, Ordering::SeqCst);
                        }
                    }
                }
            }
        });
    })
    .expect("scoped threads must not panic");

    assert_eq!(
        0,
        ghost_failures.load(Ordering::SeqCst),
        "a failed comparison must never report the same publication",
    );
    let final_token = shared.load_observed().1;
    assert!(
        shared
            .compare_exchange_observed(final_token, Arc::new(255))
            .is_ok(),
        "after all togglers stop, a fresh token must commit exactly once",
    );
    assert_eq!(255, **shared.load());
    let _ = successes;
}

/// Tokens work for a storage behind a reader-writer lock.
#[test]
fn works_with_rwlock_strategy() {
    let shared: RwLock<ArcSwapAny<Arc<u32>>> = RwLock::new(ArcSwapAny::new(Arc::new(1)));
    let token = shared.read().unwrap().load_observed().1;
    assert_eq!(0, token.generation());
    let prev = shared
        .write()
        .unwrap()
        .compare_exchange_observed(token, Arc::new(2))
        .expect("fresh token commits under RwLock strategy");
    assert_eq!(1, **prev);
    assert!(shared
        .write()
        .unwrap()
        .compare_exchange_observed(token, Arc::new(3))
        .is_err());
    let v = Arc::new(4u32);
    shared.write().unwrap().store(Arc::clone(&v));
    let t2 = shared.read().unwrap().load_observed().1;
    shared
        .write()
        .unwrap()
        .force_generation(t2.generation() + 3);
    let err = shared
        .write()
        .unwrap()
        .compare_exchange_observed(t2, Arc::new(5))
        .err()
        .unwrap();
    assert!(t2.same_address(&err));
    assert_ne!(t2, err);
}
