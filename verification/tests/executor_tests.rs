use async_runtime::{spawner_and_executor, QueueClosed, TaskIdAllocator};

#[test]
fn spawned_tasks_are_polled_in_spawn_order() {
    let (spawner, mut executor) = spawner_and_executor();
    let mut ids = TaskIdAllocator::new();
    let a = spawner.spawn(&mut ids).unwrap();
    let b = spawner.spawn(&mut ids).unwrap();
    let c = spawner.spawn(&mut ids).unwrap();
    assert_eq!(a.id, 0);
    assert_eq!(b.id, 1);
    assert_eq!(c.id, 2);

    let (first, _) = executor.run_step(&spawner).unwrap();
    executor.task_polled(first, true);
    let (second, _) = executor.run_step(&spawner).unwrap();
    executor.task_polled(second, true);
    let (third, _) = executor.run_step(&spawner).unwrap();
    executor.task_polled(third, true);
    assert_eq!(first, a);
    assert_eq!(second, b);
    assert_eq!(third, c);
}

#[test]
fn woken_task_is_polled_again() {
    let (spawner, mut executor) = spawner_and_executor();
    let mut ids = TaskIdAllocator::new();
    let a = spawner.spawn(&mut ids).unwrap();

    let (id, waker) = executor.run_step(&spawner).unwrap();
    assert_eq!(id, a);
    assert_eq!(waker.task_id(), a);
    // The task suspends: its handle stays cached, and waking re-enqueues it.
    executor.task_polled(id, false);
    waker.wake().unwrap();
    let (again, waker2) = executor.run_step(&spawner).unwrap();
    assert_eq!(again, a);
    assert_eq!(waker2.task_id(), a);
    executor.task_polled(again, true);
}

#[test]
fn spawn_fails_once_the_executor_is_gone() {
    let (spawner, executor) = spawner_and_executor();
    drop(executor);
    let mut ids = TaskIdAllocator::new();
    let r = spawner.spawn(&mut ids);
    assert_eq!(r, Err(QueueClosed));
    // The failed submission spent no id.
    assert_eq!(ids.peek(), 0);
}

#[test]
fn next_ready_fails_once_every_handle_is_gone() {
    let (spawner, mut executor) = spawner_and_executor();
    let mut ids = TaskIdAllocator::new();
    let a = spawner.spawn(&mut ids).unwrap();
    let (id, waker) = executor.run_step(&spawner).unwrap();
    assert_eq!(id, a);
    // Resolve the task: its cached handle is freed.
    executor.task_polled(id, true);
    drop(waker);
    drop(spawner);
    assert_eq!(executor.next_ready(), Err(QueueClosed));
}
