//! Tests of the claim protocol.

use std::sync::atomic::{AtomicUsize, Ordering};
use std::sync::Arc;

use crossbeam_utils::thread;

use arc_swap::claim::{Access, Reply, Seen, Task};

const MAX_SPINS: usize = 1_000_000;

/// The two words.
struct Model {
    gen: AtomicUsize,
    ptr: AtomicUsize,
}

impl Model {
    fn new() -> Self {
        Model {
            gen: AtomicUsize::new(0),
            ptr: AtomicUsize::new(0),
        }
    }

    fn serve(&self, access: Access) -> Reply {
        match access {
            Access::LoadWord => Reply::Loaded(self.gen.load(Ordering::SeqCst)),
            Access::LoadPtr => Reply::Loaded(self.ptr.load(Ordering::SeqCst)),
            Access::ExchangeWord { from, to, weak } => {
                let exchanged = if weak {
                    self.gen
                        .compare_exchange_weak(from, to, Ordering::SeqCst, Ordering::SeqCst)
                } else {
                    self.gen
                        .compare_exchange(from, to, Ordering::SeqCst, Ordering::SeqCst)
                };
                Reply::Exchanged(exchanged.is_ok())
            }
            Access::StorePtr { ptr } => {
                self.ptr.store(ptr, Ordering::SeqCst);
                Reply::Stored
            }
            Access::StoreWord { word } => {
                self.gen.store(word, Ordering::SeqCst);
                Reply::Stored
            }
        }
    }

    fn run(&self, mut task: Task) -> Task {
        while let Some(access) = task.access() {
            let reply = self.serve(access);
            if let Task::Check { seen, .. } = task {
                assert_eq!(
                    Reply::Loaded(seen.ptr),
                    reply,
                    "generation matched but the pointer moved underneath us"
                );
            }
            task = task.resume(reply);
        }
        task
    }

    fn write(&self, value: usize) {
        self.run(Task::write(value, MAX_SPINS));
    }

    fn observe(&self) -> Option<(usize, usize)> {
        match self.run(Task::observe(MAX_SPINS)) {
            Task::Observed(seen) => Some((seen.word, seen.ptr)),
            _ => None,
        }
    }

    fn commit(&self, expected: (usize, usize), value: usize) -> bool {
        let (word, ptr) = expected;
        self.run(Task::commit(Seen { word, ptr }, value)) == Task::Written
    }
}

/// A writer that goes there and back, and two conditional updates, in a race.
#[test]
fn gen_protocol_std() {
    let model = Arc::new(Model::new());

    thread::scope(|scope| {
        let writer = Arc::clone(&model);
        scope.spawn(move |_| {
            writer.write(1);
            writer.write(0);
        });

        for value in [10, 20] {
            let model = Arc::clone(&model);
            scope.spawn(move |_| {
                if let Some(observation) = model.observe() {
                    let _ = model.commit(observation, value);
                }
            });
        }
    })
    .unwrap();

    assert_eq!(0, model.gen.load(Ordering::SeqCst) % 2);
}

#[test]
fn write_claims_and_releases() {
    let mut task = Task::write(7, 3);
    assert_eq!(Some(Access::LoadWord), task.access());
    task = task.resume(Reply::Loaded(4));
    assert_eq!(
        Some(Access::ExchangeWord {
            from: 4,
            to: 5,
            weak: true
        }),
        task.access()
    );
    task = task.resume(Reply::Exchanged(true));
    assert_eq!(Some(Access::StorePtr { ptr: 7 }), task.access());
    task = task.resume(Reply::Stored);
    assert_eq!(Some(Access::StoreWord { word: 6 }), task.access());
    task = task.resume(Reply::Stored);
    assert_eq!(Task::Written, task);
    assert_eq!(None, task.access());
}

#[test]
fn writer_gives_up_after_its_tries() {
    let mut task = Task::write(7, 3);
    task = task.resume(Reply::Loaded(5));
    task = task.resume(Reply::Loaded(6));
    task = task.resume(Reply::Exchanged(false));
    assert_eq!(Task::Look { ptr: 7, tries: 1 }, task);
    task = task.resume(Reply::Loaded(7));
    assert_eq!(Task::GaveUp, task);
    assert_eq!(None, task.access());
}

#[test]
fn reader_needs_an_unchanged_even_word() {
    assert_eq!(Task::Missed, Task::observe(0));
    let mut task = Task::observe(3);
    task = task.resume(Reply::Loaded(1));
    assert_eq!(Task::Begin { tries: 2 }, task);
    task = task.resume(Reply::Loaded(2));
    assert_eq!(Some(Access::LoadPtr), task.access());
    task = task.resume(Reply::Loaded(9));
    task = task.resume(Reply::Loaded(3));
    assert_eq!(Task::Begin { tries: 1 }, task);
    task = task.resume(Reply::Loaded(4));
    task = task.resume(Reply::Loaded(8));
    let found = task.resume(Reply::Loaded(4));
    assert_eq!(Task::Observed(Seen { word: 4, ptr: 8 }), found);
    assert_eq!(Task::Missed, task.resume(Reply::Loaded(6)));
}

#[test]
fn observation_commits_once() {
    let model = Model::new();
    model.write(3);
    let seen = model.observe().unwrap();
    assert_eq!((2, 3), seen);
    assert!(model.commit(seen, 4));
    assert!(!model.commit(seen, 5));
    assert_eq!(Some((4, 4)), model.observe());
}

#[test]
fn pointer_that_came_back_is_noticed() {
    let model = Model::new();
    let seen = model.observe().unwrap();
    model.write(1);
    model.write(0);
    assert_eq!(Some((4, 0)), model.observe());
    assert!(!model.commit(seen, 9));
    assert_eq!(0, model.ptr.load(Ordering::SeqCst));
}

#[test]
fn last_word_can_be_observed_and_refused() {
    let last = usize::MAX - 1;
    let mut task = Task::observe(1);
    task = task.resume(Reply::Loaded(last));
    task = task.resume(Reply::Loaded(5));
    task = task.resume(Reply::Loaded(last));
    let seen = Seen { word: last, ptr: 5 };
    assert_eq!(Task::Observed(seen), task);
    let task = Task::commit(seen, 6);
    assert_eq!(
        Some(Access::ExchangeWord {
            from: last,
            to: usize::MAX,
            weak: false
        }),
        task.access()
    );
    assert_eq!(Task::Refused, task.resume(Reply::Exchanged(false)));
}
