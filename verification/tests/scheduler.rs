use cosupport::scheduler::{helper_threads, ProcessorRegistry, WorkCounter};

#[test]
fn work_count_follows_spawns_and_finishes() {
    let mut counter = WorkCounter::new();
    assert_eq!(counter.work_count(), 0);
    counter.spawned();
    counter.spawned();
    assert_eq!(counter.work_count(), 2);
    counter.finished();
    assert_eq!(counter.work_count(), 1);
    counter.finished();
    assert_eq!(counter.work_count(), 0);
}

#[test]
fn work_count_wraps_like_the_atomic() {
    let mut counter = WorkCounter::new();
    counter.finished();
    assert_eq!(counter.work_count(), usize::MAX);
    counter.spawned();
    assert_eq!(counter.work_count(), 0);
}

#[test]
fn join_tells_each_of_those_before() {
    let mut registry = ProcessorRegistry::new();
    assert_eq!(registry.join(10), Vec::<u64>::new());
    assert_eq!(registry.join(11), vec![10]);
    assert_eq!(registry.join(12), vec![10, 11]);
    assert_eq!(registry.len(), 3);
}

#[test]
fn enlist_includes_the_newcomer() {
    let mut registry = ProcessorRegistry::new();
    assert_eq!(registry.enlist(1), vec![1]);
    assert_eq!(registry.enlist(2), vec![1, 2]);
    assert_eq!(registry.len(), 2);
}

#[test]
fn run_starts_one_thread_less_than_asked() {
    assert_eq!(helper_threads(1), 0);
    assert_eq!(helper_threads(10), 9);
}

#[test]
fn work_count_is_spawns_minus_finishes() {
    let mut counter = WorkCounter::new();
    for _ in 0..5 {
        counter.spawned();
    }
    for _ in 0..3 {
        counter.finished();
    }
    counter.spawned();
    assert_eq!(counter.work_count(), 6 - 3);
}
