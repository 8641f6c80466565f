use crate::task::Waker;
use crate::OsError;
use std::collections::BTreeMap;
use vstd::prelude::*;

verus! {

broadcast use vstd::std_specs::btree::group_btree_axioms, vstd::laws_cmp::group_laws_cmp;

/// The kind of readiness interest a descriptor is registered for with the
/// OS multiplexer: readable or writable.
#[derive(Copy, Clone, PartialEq, Eq, Structural, Debug)]
pub enum EpollEventType {
    In,
    Out,
}

/// One pending suspended operation: the interest it registered and the
/// handle that resumes its owning task.
pub struct PendingWake {
    /// What the descriptor was registered for.
    pub interest: EpollEventType,
    /// Resumes the task whose operation is waiting on the descriptor.
    pub waker: Waker,
}

/// Readiness-event routing state: a table mapping each registered
/// descriptor to the one pending resumption handle waiting on it. The OS
/// multiplexer instance itself lives with the caller, which performs the
/// register/deregister/wait calls and feeds their outcomes in; this table
/// decides what each outcome means.
pub struct Reactor {
    wakers: BTreeMap<u64, PendingWake>,
}

impl Reactor {
    /// The descriptor table: at most one pending handle per descriptor.
    pub closed spec fn table(self) -> Map<u64, PendingWake> {
        self.wakers@
    }

    /// A reactor with nothing registered.
    pub fn new() -> (r: Reactor)
        ensures
            r.table() == Map::<u64, PendingWake>::empty(),
    {
        Reactor { wakers: BTreeMap::new() }
    }

    /// Registers a pending operation: the caller has asked the multiplexer
    /// to watch `fd` for `op` and passes that call's outcome as `ctl`. Only
    /// when the multiplexer accepted is the handle stored — a failed
    /// registration leaves no table entry behind, and the failure is handed
    /// back for the requesting operation to resolve with. Registering a
    /// descriptor that already has an entry silently replaces the earlier
    /// handle: the table holds at most one per descriptor.
    pub fn add_event(&mut self, fd: u64, op: EpollEventType, waker: Waker, ctl: Result<
        (),
        OsError,
    >) -> (r: Result<(), OsError>)
        ensures
            r == ctl,
            ctl is Ok ==> final(self).table() == old(self).table().insert(
                fd,
                PendingWake { interest: op, waker },
            ),
            ctl is Err ==> final(self).table() == old(self).table(),
    {
        match ctl {
            Ok(u) => {
                self.wakers.insert(fd, PendingWake { interest: op, waker });
                Ok(u)
            },
            Err(e) => Err(e),
        }
    }

    /// One step of the routing loop, for one descriptor the multiplexer
    /// reported ready: the entry is removed from the table *before* anything
    /// acts on it, and handed back so the caller can deregister the
    /// descriptor and invoke the handle. A descriptor with no stored handle
    /// is silently skipped — the table is left as it was and nothing fires.
    pub fn take_ready(&mut self, fd: u64) -> (r: Option<PendingWake>)
        ensures
            old(self).table().contains_key(fd) ==> {
                &&& r matches Some(p) && p == old(self).table()[fd]
                &&& final(self).table() == old(self).table().remove(fd)
            },
            !old(self).table().contains_key(fd) ==> {
                &&& r is None
                &&& final(self).table() == old(self).table()
            },
            !final(self).table().contains_key(fd),
    {
        self.wakers.remove(&fd)
    }
}

/// Once a descriptor's entry has been taken — because its operation
/// resolved, or before its owner closes the descriptor — no handle for it
/// remains anywhere in the table, so no later readiness report for that
/// descriptor can fire a stale resumption from the runtime's side.
pub proof fn lemma_taken_descriptor_stays_quiet(t: Map<u64, PendingWake>, fd: u64)
    ensures
        !t.remove(fd).contains_key(fd),
{
}

} // verus!
