use crate::reactor::EpollEventType;
use crate::OsError;
use vstd::prelude::*;

verus! {

/// An IPv4 address, held as its four octets packed into one host-order
/// integer: `a.b.c.d` becomes `a<<24 | b<<16 | c<<8 | d`. The byte-order
/// swap a socket address wants happens only at the syscall boundary.
#[derive(Copy, Clone, PartialEq, Eq, Structural, Debug)]
pub struct Ipv4Addr {
    pub bits: u32,
}

impl Ipv4Addr {
    pub fn new(a: u8, b: u8, c: u8, d: u8) -> (r: Ipv4Addr)
        ensures
            r.bits == ((a as u32) << 24) | ((b as u32) << 16) | ((c as u32) << 8) | (d as u32),
    {
        Ipv4Addr { bits: ((a as u32) << 24) | ((b as u32) << 16) | ((c as u32) << 8) | (d as u32) }
    }
}

/// An owned listening socket: holds the descriptor that `accept` attempts
/// are made on. Built only by driving `BindOp` to completion, so every
/// listener went through the full socket/option/bind/listen/non-blocking
/// sequence. The owner must close the descriptor exactly once at the end of
/// its life.
pub struct TcpListener {
    fd: i32,
}

/// An owned connected socket, already switched to non-blocking. The owner
/// must close the descriptor exactly once at the end of its life.
pub struct TcpStream {
    fd: i32,
}

/// The lazy, infinite sequence of connections accepted on one listener.
/// It buffers nothing: each `next` is a fresh suspendable accept attempt.
pub struct Incoming<'a> {
    listener: &'a TcpListener,
}

/// One in-flight attempt to accept the next connection on a listener.
pub struct AcceptFuture<'a> {
    listener: &'a TcpListener,
}

/// One in-flight attempt to read from a stream into a caller-held buffer.
pub struct ReadFuture<'a> {
    stream: &'a TcpStream,
}

/// One in-flight attempt to write a caller-held buffer to a stream.
pub struct WriteFuture<'a> {
    stream: &'a TcpStream,
}

impl TcpListener {
    /// The descriptor this listener owns.
    pub closed spec fn fd(self) -> i32 {
        self.fd
    }

    pub fn raw_fd(&self) -> (r: i32)
        ensures
            r == self.fd(),
    {
        self.fd
    }

    /// The sequence of incoming connections: restartable, never exhausted —
    /// the listener is borrowed, not consumed, and each step accepts anew.
    pub fn incoming(&self) -> (r: Incoming<'_>)
        ensures
            r.fd() == self.fd(),
    {
        Incoming { listener: self }
    }
}

impl TcpStream {
    /// The descriptor this stream owns.
    pub closed spec fn fd(self) -> i32 {
        self.fd
    }

    pub fn raw_fd(&self) -> (r: i32)
        ensures
            r == self.fd(),
    {
        self.fd
    }

    /// A suspendable read on this stream. The buffer stays with the caller,
    /// who makes the read attempt and feeds its outcome to `poll`.
    pub fn read<'a>(&'a self) -> (r: ReadFuture<'a>)
        ensures
            r.fd() == self.fd(),
    {
        ReadFuture { stream: self }
    }

    /// A suspendable write on this stream. The buffer stays with the
    /// caller, who makes the write attempt and feeds its outcome to `poll`.
    pub fn write<'a>(&'a self) -> (r: WriteFuture<'a>)
        ensures
            r.fd() == self.fd(),
    {
        WriteFuture { stream: self }
    }
}

impl<'a> Incoming<'a> {
    /// The owning listener's descriptor.
    pub closed spec fn fd(self) -> i32 {
        self.listener.fd()
    }

    /// The next step of the sequence: a fresh accept attempt on the same
    /// listener. Calling this again after a step resolves — with a
    /// connection or with an error — needs nothing rebuilt; the sequence
    /// goes on for as many connections as ever arrive.
    pub fn next(&self) -> (r: AcceptFuture<'a>)
        ensures
            r.fd() == self.fd(),
    {
        AcceptFuture { listener: self.listener }
    }
}

/// What one read or write syscall attempt came to, as classified by the
/// caller that made it. Would-block is its own case, never an error:
/// suspendable operations intercept it before a caller can see it.
pub enum IoAttempt {
    /// The syscall moved this many bytes. Zero from a read means the peer
    /// closed its write side: end-of-stream is a value, not a failure.
    Transferred(usize),
    /// The socket was not ready; retry once the OS reports readiness.
    WouldBlock,
    /// Any other OS failure.
    Fail(OsError),
}

/// What a poll of a read or write operation decided.
pub enum IoPoll {
    /// The operation resolves now, with the transfer count or the error.
    Ready(Result<usize, OsError>),
    /// Register this descriptor with the reactor under this interest, then
    /// stay pending until the reactor resumes the task.
    Register(i32, EpollEventType),
}

impl<'a> ReadFuture<'a> {
    /// The descriptor being read.
    pub closed spec fn fd(self) -> i32 {
        self.stream.fd()
    }

    /// One poll of the suspendable read: a transfer — zero included, since
    /// a drained stream whose peer closed resolves with `Ok(0)`, not an
    /// error — resolves with its byte count; would-block suspends behind a
    /// readable-interest registration; any other failure resolves the
    /// operation with that error, with no retry.
    pub fn poll(&self, attempt: IoAttempt) -> (r: IoPoll)
        ensures
            attempt matches IoAttempt::Transferred(n) ==> r == IoPoll::Ready(Ok(n)),
            attempt is WouldBlock ==> r == IoPoll::Register(self.fd(), EpollEventType::In),
            attempt matches IoAttempt::Fail(e) ==> r == IoPoll::Ready(Err(e)),
    {
        match attempt {
            IoAttempt::Transferred(n) => IoPoll::Ready(Ok(n)),
            IoAttempt::WouldBlock => IoPoll::Register(self.stream.raw_fd(), EpollEventType::In),
            IoAttempt::Fail(e) => IoPoll::Ready(Err(e)),
        }
    }
}

impl<'a> WriteFuture<'a> {
    /// The descriptor being written.
    pub closed spec fn fd(self) -> i32 {
        self.stream.fd()
    }

    /// One poll of the suspendable write: a transfer resolves with the
    /// count of bytes the OS accepted — possibly short; the runtime does
    /// not loop to completion. Would-block suspends behind a
    /// writable-interest registration; any other failure resolves the
    /// operation with that error.
    pub fn poll(&self, attempt: IoAttempt) -> (r: IoPoll)
        ensures
            attempt matches IoAttempt::Transferred(n) ==> r == IoPoll::Ready(Ok(n)),
            attempt is WouldBlock ==> r == IoPoll::Register(self.fd(), EpollEventType::Out),
            attempt matches IoAttempt::Fail(e) ==> r == IoPoll::Ready(Err(e)),
    {
        match attempt {
            IoAttempt::Transferred(n) => IoPoll::Ready(Ok(n)),
            IoAttempt::WouldBlock => IoPoll::Register(self.stream.raw_fd(), EpollEventType::Out),
            IoAttempt::Fail(e) => IoPoll::Ready(Err(e)),
        }
    }
}

/// What one accept syscall attempt came to, as classified by the caller
/// that made it.
pub enum AcceptAttempt {
    /// A connection arrived, with its new descriptor.
    Accepted(i32),
    /// No connection is pending; retry once the listener is readable.
    WouldBlock,
    /// Any other OS failure.
    Fail(OsError),
}

/// What a poll of the accept-next operation decided.
pub enum AcceptPoll {
    /// A connection arrived: switch its descriptor to non-blocking and hand
    /// the outcome to `finish_accept` to resolve the step.
    Accepted(i32),
    /// Register the listener's descriptor with the reactor under this
    /// interest, then stay pending; the executor is free to run other
    /// tasks meanwhile.
    Register(i32, EpollEventType),
    /// The step resolves with this failure. The sequence itself survives:
    /// the next step is a fresh, independent attempt.
    Failed(OsError),
}

impl<'a> AcceptFuture<'a> {
    /// The owning listener's descriptor.
    pub closed spec fn fd(self) -> i32 {
        self.listener.fd()
    }

    /// The owning listener's descriptor, for making the accept attempt.
    pub fn listener_fd(&self) -> (r: i32)
        ensures
            r == self.fd(),
    {
        self.listener.raw_fd()
    }

    /// One poll of the accept-next operation: a waiting connection is taken
    /// up; no waiting connection suspends the step — control returns to the
    /// executor instead of blocking the thread — behind a readable-interest
    /// registration on the listener; any other failure resolves the step.
    pub fn poll(&self, attempt: AcceptAttempt) -> (r: AcceptPoll)
        ensures
            attempt matches AcceptAttempt::Accepted(fd) ==> r == AcceptPoll::Accepted(fd),
            attempt is WouldBlock ==> r == AcceptPoll::Register(self.fd(), EpollEventType::In),
            attempt matches AcceptAttempt::Fail(e) ==> r == AcceptPoll::Failed(e),
    {
        match attempt {
            AcceptAttempt::Accepted(fd) => AcceptPoll::Accepted(fd),
            AcceptAttempt::WouldBlock => AcceptPoll::Register(
                self.listener.raw_fd(),
                EpollEventType::In,
            ),
            AcceptAttempt::Fail(e) => AcceptPoll::Failed(e),
        }
    }
}

/// Resolves an accepted connection: `nonblock` is the outcome of switching
/// the new descriptor `fd` to non-blocking. Success resolves with a stream
/// owning exactly that descriptor; a failure to switch resolves the accept
/// step with that error instead.
pub fn finish_accept(fd: i32, nonblock: Result<(), OsError>) -> (r: Result<TcpStream, OsError>)
    ensures
        nonblock is Ok ==> (r matches Ok(s) && s.fd() == fd),
        nonblock matches Err(e) ==> (r matches Err(e2) && e2 == e),
{
    match nonblock {
        Ok(u) => Ok(TcpStream { fd }),
        Err(e) => Err(e),
    }
}

/// Decides a suspend request's fate from the reactor registration's own
/// outcome: an accepted registration parks the operation (it stays
/// pending); a failed registration resolves the operation with that error
/// instead of suspending, surfaced synchronously to whoever polled.
pub fn registration_decision(reg: Result<(), OsError>) -> (r: Option<OsError>)
    ensures
        reg is Ok <==> r is None,
        reg matches Err(e) ==> r == Some(e),
{
    match reg {
        Ok(u) => None,
        Err(e) => Some(e),
    }
}

/// The fixed backlog every new listener is created with.
pub const LISTEN_BACKLOG: i32 = 128;

/// The stages of building a listener, each named by the syscall it owes
/// next: set address-reuse, bind the address, listen, switch the
/// descriptor to non-blocking.
#[derive(Copy, Clone, PartialEq, Eq, Structural, Debug)]
pub enum BindStage {
    ReuseAddr,
    Bind,
    Listen,
    Nonblocking,
}

/// A listener half-built: a socket descriptor the process owns but that is
/// not yet listening. If any later step fails, the descriptor must be
/// released — `step` says so explicitly — so no half-built socket leaks.
pub struct BindOp {
    /// The socket descriptor created for this listener.
    pub fd: i32,
    /// The address the listener is to bind.
    pub addr: Ipv4Addr,
    /// The port the listener is to bind.
    pub port: u16,
    /// The syscall owed next.
    pub stage: BindStage,
}

/// The syscall a half-built listener owes next, with its arguments.
pub enum BindAction {
    /// Set the address-reuse socket option on the descriptor.
    SetReuseAddr(i32),
    /// Bind the descriptor to the address and port.
    BindAddr(i32, Ipv4Addr, u16),
    /// Start listening with the given backlog.
    Listen(i32, i32),
    /// Switch the descriptor to non-blocking.
    SetNonblocking(i32),
}

/// What one bind step made of its syscall's outcome.
pub enum BindProgress {
    /// More syscalls are owed; ask `next_action`.
    InProgress(BindOp),
    /// A step failed: close `close_fd` — exactly once — then surface
    /// `error`. The half-built descriptor never outlives the failure.
    Fail { close_fd: i32, error: OsError },
    /// Every step succeeded: the listener is ready.
    Done(TcpListener),
}

impl BindOp {
    /// Begins binding a listener on `addr:port` from the outcome of the
    /// socket-creation syscall (a non-blocking, close-on-exec stream
    /// socket). Failure to create the socket fails the bind with that
    /// error, with nothing yet to release.
    pub fn start(addr: Ipv4Addr, port: u16, socket: Result<i32, OsError>) -> (r: Result<
        BindOp,
        OsError,
    >)
        ensures
            socket matches Ok(fd) ==> r == Ok::<BindOp, OsError>(
                BindOp { fd, addr, port, stage: BindStage::ReuseAddr },
            ),
            socket matches Err(e) ==> (r matches Err(e2) && e2 == e),
    {
        match socket {
            Ok(fd) => Ok(BindOp { fd, addr, port, stage: BindStage::ReuseAddr }),
            Err(e) => Err(e),
        }
    }

    /// The syscall owed next, with the arguments it must be made with: the
    /// listen step always uses the fixed backlog.
    pub fn next_action(&self) -> (a: BindAction)
        ensures
            self.stage is ReuseAddr ==> a == BindAction::SetReuseAddr(self.fd),
            self.stage is Bind ==> a == BindAction::BindAddr(self.fd, self.addr, self.port),
            self.stage is Listen ==> a == BindAction::Listen(self.fd, LISTEN_BACKLOG),
            self.stage is Nonblocking ==> a == BindAction::SetNonblocking(self.fd),
    {
        match self.stage {
            BindStage::ReuseAddr => BindAction::SetReuseAddr(self.fd),
            BindStage::Bind => BindAction::BindAddr(self.fd, self.addr, self.port),
            BindStage::Listen => BindAction::Listen(self.fd, LISTEN_BACKLOG),
            BindStage::Nonblocking => BindAction::SetNonblocking(self.fd),
        }
    }

    /// Advances the bind by the outcome of the syscall `next_action` asked
    /// for. Any failure — an address already in use at the bind step
    /// included — stops the sequence right there and orders the half-built
    /// descriptor closed; the error is surfaced, never swallowed. Success
    /// moves to the next stage, and after the non-blocking switch the
    /// finished listener owns the descriptor.
    pub fn step(self, outcome: Result<(), OsError>) -> (r: BindProgress)
        ensures
            outcome matches Err(e) ==> r == (BindProgress::Fail { close_fd: self.fd, error: e }),
            outcome is Ok ==> match self.stage {
                BindStage::ReuseAddr => r == BindProgress::InProgress(
                    BindOp { fd: self.fd, addr: self.addr, port: self.port, stage: BindStage::Bind },
                ),
                BindStage::Bind => r == BindProgress::InProgress(
                    BindOp {
                        fd: self.fd,
                        addr: self.addr,
                        port: self.port,
                        stage: BindStage::Listen,
                    },
                ),
                BindStage::Listen => r == BindProgress::InProgress(
                    BindOp {
                        fd: self.fd,
                        addr: self.addr,
                        port: self.port,
                        stage: BindStage::Nonblocking,
                    },
                ),
                BindStage::Nonblocking => (r matches BindProgress::Done(l) && l.fd() == self.fd),
            },
    {
        match outcome {
            Ok(u) => match self.stage {
                BindStage::ReuseAddr => BindProgress::InProgress(
                    BindOp { fd: self.fd, addr: self.addr, port: self.port, stage: BindStage::Bind },
                ),
                BindStage::Bind => BindProgress::InProgress(
                    BindOp {
                        fd: self.fd,
                        addr: self.addr,
                        port: self.port,
                        stage: BindStage::Listen,
                    },
                ),
                BindStage::Listen => BindProgress::InProgress(
                    BindOp {
                        fd: self.fd,
                        addr: self.addr,
                        port: self.port,
                        stage: BindStage::Nonblocking,
                    },
                ),
                BindStage::Nonblocking => BindProgress::Done(TcpListener { fd: self.fd }),
            },
            Err(e) => BindProgress::Fail { close_fd: self.fd, error: e },
        }
    }
}

} // verus!
