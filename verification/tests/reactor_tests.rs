use async_runtime::{EpollEventType, OsError, Reactor, TaskId, Waker};

#[test]
fn registered_descriptor_is_taken_once() {
    let (s, _r) = crossbeam_channel::bounded::<u64>(4);
    let mut reactor = Reactor::new();
    let waker = Waker::new(TaskId { id: 7 }, &s);
    reactor.add_event(5, EpollEventType::In, waker, Ok(())).unwrap();

    let pending = reactor.take_ready(5).unwrap();
    assert_eq!(pending.interest, EpollEventType::In);
    assert_eq!(pending.waker.task_id().id, 7);
    // The entry was removed before anything acted on it: a second report
    // for the same descriptor finds nothing and fires nothing.
    assert!(reactor.take_ready(5).is_none());
}

#[test]
fn failed_registration_stores_no_handle() {
    let (s, _r) = crossbeam_channel::bounded::<u64>(4);
    let mut reactor = Reactor::new();
    let waker = Waker::new(TaskId { id: 1 }, &s);
    let r = reactor.add_event(6, EpollEventType::Out, waker, Err(OsError { errno: 9 }));
    assert_eq!(r, Err(OsError { errno: 9 }));
    assert!(reactor.take_ready(6).is_none());
}

#[test]
fn second_registration_replaces_the_first() {
    let (s, _r) = crossbeam_channel::bounded::<u64>(4);
    let mut reactor = Reactor::new();
    let first = Waker::new(TaskId { id: 1 }, &s);
    let second = Waker::new(TaskId { id: 2 }, &s);
    reactor.add_event(5, EpollEventType::In, first, Ok(())).unwrap();
    reactor.add_event(5, EpollEventType::Out, second, Ok(())).unwrap();

    let pending = reactor.take_ready(5).unwrap();
    assert_eq!(pending.interest, EpollEventType::Out);
    assert_eq!(pending.waker.task_id().id, 2);
    assert!(reactor.take_ready(5).is_none());
}

#[test]
fn unknown_descriptor_is_silently_skipped() {
    let mut reactor = Reactor::new();
    assert!(reactor.take_ready(99).is_none());
}

#[test]
fn taken_handle_resumes_its_task() {
    let (s, r) = crossbeam_channel::bounded::<u64>(4);
    let mut reactor = Reactor::new();
    let waker = Waker::new(TaskId { id: 11 }, &s);
    reactor.add_event(8, EpollEventType::In, waker, Ok(())).unwrap();

    let pending = reactor.take_ready(8).unwrap();
    pending.waker.wake().unwrap();
    assert_eq!(r.recv().unwrap(), 11);
}
