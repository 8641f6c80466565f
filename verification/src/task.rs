use crate::channel::{channel_send, QueueClosed};
use vstd::prelude::*;

verus! {

/// Stable identity of one spawned task. Ids are handed out by a
/// `TaskIdAllocator` in strictly increasing order and are never reused.
#[derive(Debug, Copy, Clone, PartialEq, Eq, Structural)]
pub struct TaskId {
    pub id: u64,
}

/// Source of fresh task ids: a counter that only moves forward.
pub struct TaskIdAllocator {
    next_id: u64,
}

impl TaskIdAllocator {
    /// The id the allocator will hand out next.
    pub closed spec fn next(self) -> u64 {
        self.next_id
    }

    pub fn new() -> (r: TaskIdAllocator)
        ensures
            r.next() == 0,
    {
        TaskIdAllocator { next_id: 0 }
    }

    /// The id the allocator will hand out next, without spending it.
    pub fn peek(&self) -> (r: u64)
        ensures
            r == self.next(),
    {
        self.next_id
    }

    /// Hands out the next id and moves the counter forward, so no two
    /// calls ever return the same id.
    pub fn fresh(&mut self) -> (r: TaskId)
        requires
            old(self).next() < u64::MAX,
        ensures
            r.id == old(self).next(),
            final(self).next() == old(self).next() + 1,
    {
        let id = self.next_id;
        self.next_id = self.next_id + 1;
        TaskId { id }
    }
}

impl TaskId {
    /// Draws a fresh id from the allocator.
    pub fn new(alloc: &mut TaskIdAllocator) -> (r: TaskId)
        requires
            old(alloc).next() < u64::MAX,
        ensures
            r.id == old(alloc).next(),
            final(alloc).next() == old(alloc).next() + 1,
    {
        alloc.fresh()
    }
}

/// Task ids are unique and assigned in increasing order: whatever id the
/// allocator hands out next is strictly larger than every id it handed
/// out before, so two distinct draws never collide.
pub proof fn lemma_task_ids_strictly_increase(
    before: TaskIdAllocator,
    mid: TaskIdAllocator,
    first: TaskId,
    second: TaskId,
)
    requires
        first.id == before.next(),
        mid.next() == before.next() + 1,
        second.id == mid.next(),
    ensures
        first.id < second.id,
        first != second,
{
}

/// The resumption handle of one task: the token a suspended operation's
/// owner holds so that, when notified, it can re-enter the ready queue.
/// Waking never touches the task's computation; it only re-enqueues the id.
pub struct Waker {
    task_id: TaskId,
    sender: crossbeam_channel::Sender<u64>,
}

impl Waker {
    /// The task this handle resumes.
    pub closed spec fn task(self) -> TaskId {
        self.task_id
    }

    /// Builds a handle that re-enqueues `task_id` on the queue `sender`
    /// feeds.
    pub fn new(task_id: TaskId, sender: &crossbeam_channel::Sender<u64>) -> (w: Waker)
        ensures
            w.task() == task_id,
    {
        Waker { task_id, sender: sender.clone() }
    }

    /// The task this handle resumes.
    pub fn task_id(&self) -> (r: TaskId)
        ensures
            r == self.task(),
    {
        self.task_id
    }

    /// A second handle for the same task and the same queue.
    pub fn duplicate(&self) -> (w: Waker)
        ensures
            w.task() == self.task(),
    {
        Waker { task_id: self.task_id, sender: self.sender.clone() }
    }

    /// Resumes the task: pushes its id onto the ready queue once more. Every
    /// invocation enqueues independently — the queue deduplicates nothing,
    /// and a duplicate entry only causes one extra, harmless poll. Fails
    /// only when the executor side of the queue is gone.
    pub fn wake_by_ref(&self) -> (r: Result<(), QueueClosed>) {
        channel_send(&self.sender, self.task_id.id)
    }

    /// Resumes the task, consuming the handle.
    pub fn wake(self) -> (r: Result<(), QueueClosed>) {
        self.wake_by_ref()
    }
}

} // verus!
