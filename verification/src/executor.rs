use crate::channel::{channel_bounded, channel_recv, QueueClosed};
use crate::task::{TaskId, TaskIdAllocator, Waker};
use std::collections::BTreeMap;
use vstd::prelude::*;

verus! {

broadcast use vstd::std_specs::btree::group_btree_axioms, vstd::laws_cmp::group_laws_cmp;

/// How many undelivered entries the ready queue holds before `spawn` and
/// wake-ups start blocking: the runtime's only backpressure mechanism.
pub const READY_QUEUE_CAPACITY: usize = 10000;

/// Handle for submitting new units of work: the sending end of the
/// executor's ready-task queue. Any number of clones may exist.
#[derive(Clone)]
pub struct Spawner {
    task_sender: crossbeam_channel::Sender<u64>,
}

/// The scheduling loop's state: the receiving end of the ready-task queue
/// and a cache of resumption handles, one per in-flight task, keyed by task
/// id. Ids never repeat, so the cache key is unambiguous.
pub struct Executor {
    task_queue: crossbeam_channel::Receiver<u64>,
    waker_cache: BTreeMap<u64, Waker>,
}

impl Executor {
    /// The resumption-handle cache, as a map from task id to handle.
    pub closed spec fn cache(self) -> Map<u64, Waker> {
        self.waker_cache@
    }

    /// Well-formedness: every cached handle resumes exactly the task it is
    /// filed under.
    pub open spec fn wf(self) -> bool {
        forall|k: u64| #[trigger]
            self.cache().contains_key(k) ==> self.cache()[k].task().id == k
    }

    /// Blocks until the queue delivers the next ready task's id, in the
    /// order the entries were enqueued; fails only once every Spawner and
    /// every outstanding resumption handle is gone.
    pub fn next_ready(&self) -> (r: Result<TaskId, QueueClosed>) {
        match channel_recv(&self.task_queue) {
            Ok(v) => Ok(TaskId { id: v }),
            Err(e) => Err(e),
        }
    }

    /// Looks up the cached resumption handle for `id`, creating it if this
    /// is the first poll of that task — a handle is built at most once per
    /// task and reused across its suspend/resume cycles, from a Spawner for
    /// this executor's own queue. Returns a duplicate for the caller to
    /// poll with; the cache keeps the original.
    pub fn waker_for(&mut self, id: TaskId, spawner: &Spawner) -> (w: Waker)
        requires
            old(self).wf(),
        ensures
            final(self).wf(),
            w.task() == id,
            final(self).cache().contains_key(id.id),
            old(self).cache().contains_key(id.id) ==> final(self).cache() == old(self).cache(),
            !old(self).cache().contains_key(id.id) ==> final(self).cache() == old(
                self,
            ).cache().insert(id.id, final(self).cache()[id.id]),
            final(self).cache().dom() == old(self).cache().dom().insert(id.id),
    {
        if self.waker_cache.contains_key(&id.id) {
            match self.waker_cache.get(&id.id) {
                Some(w) => {
                    let d = w.duplicate();
                    proof {
                        assert(old(self).cache().dom().insert(id.id) =~= old(self).cache().dom());
                    }
                    d
                },
                None => vstd::pervasive::unreached(),
            }
        } else {
            let w = Waker::new(id, &spawner.task_sender);
            let d = w.duplicate();
            self.waker_cache.insert(id.id, w);
            proof {
                assert forall|k: u64| #[trigger]
                    self.cache().contains_key(k) implies self.cache()[k].task().id == k by {
                    if k != id.id {
                        assert(old(self).cache().contains_key(k));
                    }
                }
            }
            d
        }
    }

    /// Records the outcome of polling task `id`: a resolved task's cache
    /// entry is evicted (its handle is freed, the id never comes back); a
    /// still-pending task keeps its handle for the next resumption.
    pub fn task_polled(&mut self, id: TaskId, resolved: bool)
        requires
            old(self).wf(),
        ensures
            final(self).wf(),
            resolved ==> final(self).cache() == old(self).cache().remove(id.id),
            !resolved ==> final(self).cache() == old(self).cache(),
    {
        if resolved {
            self.waker_cache.remove(&id.id);
            proof {
                assert forall|k: u64| #[trigger]
                    self.cache().contains_key(k) implies self.cache()[k].task().id == k by {
                    assert(old(self).cache().contains_key(k));
                }
            }
        }
    }

    /// One iteration of the scheduling loop, up to the poll itself: take
    /// the next ready task id off the queue, strictly in queue order, and
    /// produce its resumption handle. The caller drives the task's
    /// computation one step with the handle and reports the result through
    /// `task_polled`.
    pub fn run_step(&mut self, spawner: &Spawner) -> (r: Result<(TaskId, Waker), QueueClosed>)
        requires
            old(self).wf(),
        ensures
            final(self).wf(),
            r matches Ok(p) ==> {
                &&& p.1.task() == p.0
                &&& final(self).cache().contains_key(p.0.id)
                &&& final(self).cache().dom() == old(self).cache().dom().insert(p.0.id)
                &&& (old(self).cache().contains_key(p.0.id) ==> final(self).cache() == old(
                    self,
                ).cache())
            },
            r is Err ==> final(self).cache() == old(self).cache(),
    {
        match self.next_ready() {
            Ok(id) => {
                let w = self.waker_for(id, spawner);
                Ok((id, w))
            },
            Err(e) => Err(e),
        }
    }
}

impl Spawner {
    /// Submits one new unit of work: draws a fresh, never-repeating task id
    /// and enqueues it on the bounded ready queue, blocking while the queue
    /// is full. On success the new task's id is returned so the caller can
    /// attach the task's computation to it; failure means the executor side
    /// of the queue is gone, and no id is spent.
    pub fn spawn(&self, ids: &mut TaskIdAllocator) -> (r: Result<TaskId, QueueClosed>)
        requires
            old(ids).next() < u64::MAX,
        ensures
            r matches Ok(id) ==> {
                &&& id.id == old(ids).next()
                &&& final(ids).next() == old(ids).next() + 1
            },
            r is Err ==> final(ids).next() == old(ids).next(),
    {
        let id = TaskId { id: ids.peek() };
        match crate::channel::channel_send(&self.task_sender, id.id) {
            Ok(()) => {
                let drawn = ids.fresh();
                Ok(drawn)
            },
            Err(e) => Err(e),
        }
    }
}

/// Builds the connected pair: a Spawner feeding the bounded ready queue and
/// the Executor draining it. The executor starts with an empty handle cache.
pub fn spawner_and_executor() -> (r: (Spawner, Executor))
    ensures
        r.1.cache() == Map::<u64, Waker>::empty(),
        r.1.wf(),
{
    let (task_sender, task_queue) = channel_bounded(READY_QUEUE_CAPACITY);
    let spawner = Spawner { task_sender };
    let executor = Executor { task_queue, waker_cache: BTreeMap::new() };
    (spawner, executor)
}

/// One scheduling round, as the ready queue sees it: the executor takes the
/// front entry for polling, and any number of later submissions or wake-ups
/// (`arrivals`) join at the back — the queue deduplicates and reorders
/// nothing.
pub open spec fn queue_round(q: Seq<u64>, arrivals: Seq<u64>) -> Seq<u64>
    recommends
        q.len() > 0,
{
    q.drop_first() + arrivals
}

/// The ready queue after a whole run of rounds, one entry of `arrivals` —
/// itself a batch, possibly empty — joining per round.
pub open spec fn queue_after_rounds(q: Seq<u64>, arrivals: Seq<Seq<u64>>) -> Seq<u64>
    decreases arrivals.len(),
{
    if arrivals.len() == 0 {
        q
    } else {
        queue_after_rounds(queue_round(q, arrivals.first()), arrivals.drop_first())
    }
}

/// Queue non-starvation: the ready queue is served strictly in enqueue
/// order, so a task standing at position `i` reaches the front after
/// exactly `i` rounds, however much later work joined the queue behind it
/// meanwhile — the round after that polls it. Every submitted task is
/// therefore polled after finitely many rounds once the loop runs.
pub proof fn lemma_fifo_no_starvation(q: Seq<u64>, arrivals: Seq<Seq<u64>>, i: int)
    requires
        0 <= i < q.len(),
        arrivals.len() == i,
    ensures
        queue_after_rounds(q, arrivals).len() > 0,
        queue_after_rounds(q, arrivals).first() == q[i],
    decreases i,
{
    if i == 0 {
        assert(queue_after_rounds(q, arrivals) == q);
    } else {
        let next = queue_round(q, arrivals.first());
        assert(next[i - 1] == q[i]);
        lemma_fifo_no_starvation(next, arrivals.drop_first(), i - 1);
    }
}

} // verus!
