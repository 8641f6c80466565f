use vstd::prelude::*;

mod async_io;
mod channel;
mod executor;
mod reactor;
mod task;

pub use async_io::finish_accept;
pub use async_io::registration_decision;
pub use async_io::AcceptAttempt;
pub use async_io::AcceptFuture;
pub use async_io::AcceptPoll;
pub use async_io::BindAction;
pub use async_io::BindOp;
pub use async_io::BindProgress;
pub use async_io::BindStage;
pub use async_io::Incoming;
pub use async_io::IoAttempt;
pub use async_io::IoPoll;
pub use async_io::Ipv4Addr;
pub use async_io::ReadFuture;
pub use async_io::TcpListener;
pub use async_io::TcpStream;
pub use async_io::WriteFuture;
pub use async_io::LISTEN_BACKLOG;
pub use channel::QueueClosed;
pub use reactor::lemma_taken_descriptor_stays_quiet;
pub use reactor::EpollEventType;
pub use reactor::PendingWake;
pub use reactor::Reactor;
pub use executor::lemma_fifo_no_starvation;
pub use executor::queue_after_rounds;
pub use executor::queue_round;
pub use executor::spawner_and_executor;
pub use executor::Executor;
pub use executor::Spawner;
pub use executor::READY_QUEUE_CAPACITY;
pub use task::lemma_task_ids_strictly_increase;
pub use task::TaskId;
pub use task::TaskIdAllocator;
pub use task::Waker;

verus! {

/// An OS-level failure, carried as the raw `errno` value the syscall left
/// behind. Would-block is never represented this way: suspendable
/// operations intercept it before it becomes an error.
#[derive(Copy, Clone, PartialEq, Eq, Structural, Debug)]
pub struct OsError {
    pub errno: i32,
}

} // verus!
