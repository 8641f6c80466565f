use vstd::prelude::*;

verus! {

/// The ready-task queue is a bounded multi-producer/single-consumer channel
/// from `crossbeam_channel`. The endpoint types are outside code, declared
/// here so the runtime's own types can store and pass them.
#[verifier::external_type_specification]
#[verifier::external_body]
#[verifier::reject_recursive_types(T)]
pub struct ExSender<T>(crossbeam_channel::Sender<T>);

#[verifier::external_type_specification]
#[verifier::external_body]
#[verifier::reject_recursive_types(T)]
pub struct ExReceiver<T>(crossbeam_channel::Receiver<T>);

/// The runtime's own error for a ready queue whose other side has hung up:
/// no task can ever be delivered or submitted again.
#[derive(Copy, Clone, PartialEq, Eq, Structural, Debug)]
pub struct QueueClosed;

/// Relies on `crossbeam_channel::bounded`: builds a connected
/// sender/receiver pair with the given capacity; once the channel holds
/// `cap` undelivered messages, further sends block until a receive frees a
/// slot. `bounded` panics only when the capacity is too large for the
/// channel's internal index arithmetic; the `requires` keeps far below that.
#[verifier::external_body]
pub(crate) fn channel_bounded(cap: usize) -> (r: (
    crossbeam_channel::Sender<u64>,
    crossbeam_channel::Receiver<u64>,
))
    requires
        cap <= 0x1000_0000,
{
    crossbeam_channel::bounded(cap)
}

/// Relies on `crossbeam_channel::Sender::send`: blocks while the channel is
/// full, enqueues the message behind all earlier sends, and fails only when
/// every receiver has disconnected. Whether it succeeds depends on the
/// channel's other holders, so nothing more can be promised of the result.
#[verifier::external_body]
pub(crate) fn channel_send(s: &crossbeam_channel::Sender<u64>, v: u64) -> (r: Result<
    (),
    QueueClosed,
>) {
    match s.send(v) {
        Ok(()) => Ok(()),
        Err(_) => Err(QueueClosed),
    }
}

/// Relies on `crossbeam_channel::Receiver::recv`: blocks until a message is
/// available and delivers messages in the order they were enqueued; fails
/// only when the channel is empty and every sender has disconnected. Which
/// message arrives depends on the channel's other holders, so nothing more
/// can be promised of the result.
#[verifier::external_body]
pub(crate) fn channel_recv(r: &crossbeam_channel::Receiver<u64>) -> (res: Result<
    u64,
    QueueClosed,
>) {
    match r.recv() {
        Ok(v) => Ok(v),
        Err(_) => Err(QueueClosed),
    }
}

/// Relies on `crossbeam_channel::Sender::clone`: the clone sends into the
/// same channel as the original.
pub assume_specification<T>[ <crossbeam_channel::Sender<T> as std::clone::Clone>::clone ](
    s: &crossbeam_channel::Sender<T>,
) -> crossbeam_channel::Sender<T>;

} // verus!
