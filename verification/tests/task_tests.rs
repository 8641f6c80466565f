use async_runtime::{TaskId, TaskIdAllocator, Waker};

#[test]
fn task_ids_monotonic_and_unique() {
    let mut ids = TaskIdAllocator::new();
    let a = TaskId::new(&mut ids);
    let b = TaskId::new(&mut ids);
    let c = ids.fresh();
    assert_eq!(a.id, 0);
    assert_eq!(b.id, 1);
    assert_eq!(c.id, 2);
    assert!(a.id < b.id && b.id < c.id);
    assert_ne!(a, b);
    assert_ne!(b, c);
}

#[test]
fn allocator_peek_spends_nothing() {
    let mut ids = TaskIdAllocator::new();
    assert_eq!(ids.peek(), 0);
    assert_eq!(ids.peek(), 0);
    let a = ids.fresh();
    assert_eq!(a.id, 0);
    assert_eq!(ids.peek(), 1);
}

#[test]
fn waker_wakes_by_enqueuing_its_task_id() {
    let (s, r) = crossbeam_channel::bounded::<u64>(4);
    let w = Waker::new(TaskId { id: 7 }, &s);
    assert_eq!(w.task_id().id, 7);
    w.wake_by_ref().unwrap();
    assert_eq!(r.recv().unwrap(), 7);
    let d = w.duplicate();
    assert_eq!(d.task_id().id, 7);
    d.wake().unwrap();
    assert_eq!(r.recv().unwrap(), 7);
}

#[test]
fn wake_enqueues_once_per_invocation() {
    let (s, r) = crossbeam_channel::bounded::<u64>(4);
    let w = Waker::new(TaskId { id: 3 }, &s);
    w.wake_by_ref().unwrap();
    w.wake_by_ref().unwrap();
    assert_eq!(r.recv().unwrap(), 3);
    assert_eq!(r.recv().unwrap(), 3);
}
