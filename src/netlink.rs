use vstd::prelude::*;

verus! {

/// Size of the receive area that a new handle starts with.
pub const INITIAL_CAPACITY: usize = 256;

/// How an OS call failed, as far as the receive protocol tells failures apart.
#[derive(PartialEq, Eq, Structural, Clone, Copy, Debug)]
pub enum IoKind {
    /// The call was interrupted by a signal; the caller retries.
    Interrupted,
    /// Any other failure, with its OS error number.
    Other(i32),
}

/// Why a receive produced no event.
#[derive(PartialEq, Eq, Structural, Clone, Copy, Debug)]
pub enum NetlinkError<E> {
    /// Nothing became readable within the timeout.
    Timeout,
    /// An OS call failed.
    IO(IoKind),
    /// A whole message arrived but the decoder rejected it.
    Serialize(E),
}

/// A decoder of one kind of uevent, stated over the decoded event's view.
pub trait Uevent<E>: Sized + View {
    /// What decoding the bytes `data` gives.
    spec fn decoded(data: Seq<u8>) -> Result<Self::V, E>;

    fn from_bytes(data: &Vec<u8>) -> (r: Result<Self, E>)
        ensures
            Self::decoded(data@) == result_view(r),
    ;
}

/// A decoding result, with the event replaced by its view.
pub open spec fn result_view<U: View, E>(r: Result<U, E>) -> Result<U::V, E> {
    match r {
        Ok(u) => Ok(u@),
        Err(e) => Err(e),
    }
}

/// Outcome of waiting for the socket to become readable.
#[derive(PartialEq, Eq, Structural, Clone, Copy, Debug)]
pub enum PollOutcome {
    Ready,
    TimedOut,
    Failed(IoKind),
}

/// The next OS operation of a receive, or its end.
#[derive(PartialEq, Eq, Structural, Clone, Copy, Debug)]
pub enum RecvAction<E> {
    /// Wait up to `timeout` milliseconds for `fd` to become readable.
    Poll { fd: i32, timeout: i32 },
    /// Read the pending datagram without consuming it, into an area of
    /// `capacity` bytes, and report its full size.
    Probe { fd: i32, capacity: usize },
    /// Consume the pending datagram into an area of `capacity` bytes.
    Drain { fd: i32, capacity: usize },
    /// The receive ends with this error.
    Fail(NetlinkError<E>),
}

/// The area size after a probe reported a datagram of `size` bytes that
/// did not fit in `capacity`: double, or an exact fit where doubling is
/// still too small.
pub open spec fn grown(capacity: nat, size: nat) -> nat {
    let doubled = if capacity <= usize::MAX / 2 { 2 * capacity } else { usize::MAX as nat };
    if doubled >= size { doubled } else { size }
}

/// What a consuming read of the datagram `msg` into `capacity` bytes yields.
pub open spec fn read_into(msg: Seq<u8>, capacity: nat) -> Seq<u8> {
    if msg.len() <= capacity { msg } else { msg.take(capacity as int) }
}

/// First step of a receive that waits `timeout` milliseconds, or without
/// bound where `timeout` is negative.
pub open spec fn start_action<E>(fd: i32, capacity: usize, timeout: i32) -> RecvAction<E> {
    if timeout >= 0 {
        RecvAction::Poll { fd, timeout }
    } else {
        RecvAction::Probe { fd, capacity }
    }
}

/// Step after the wait.
pub open spec fn poll_action<E>(fd: i32, capacity: usize, outcome: PollOutcome) -> RecvAction<E> {
    match outcome {
        PollOutcome::Ready => RecvAction::Probe { fd, capacity },
        PollOutcome::TimedOut => RecvAction::Fail(NetlinkError::Timeout),
        PollOutcome::Failed(k) => RecvAction::Fail(NetlinkError::IO(k)),
    }
}

/// Area size after a probe.
pub open spec fn probe_capacity(capacity: usize, probed: Result<usize, IoKind>) -> nat {
    match probed {
        Ok(size) => if size > capacity { grown(capacity as nat, size as nat) } else { capacity as nat },
        Err(_) => capacity as nat,
    }
}

/// Step after a probe: probe again into a grown area, or drain.
pub open spec fn probe_action<E>(fd: i32, capacity: usize, probed: Result<usize, IoKind>) -> RecvAction<E> {
    match probed {
        Ok(size) => if size > capacity {
            RecvAction::Probe { fd, capacity: grown(capacity as nat, size as nat) as usize }
        } else {
            RecvAction::Drain { fd, capacity }
        },
        Err(k) => RecvAction::Fail(NetlinkError::IO(k)),
    }
}

/// Result of a receive whose drain read `drained`.
pub open spec fn drain_result<U: Uevent<E>, E>(drained: Result<Seq<u8>, IoKind>) -> Result<U::V, NetlinkError<E>> {
    match drained {
        Ok(data) => match U::decoded(data) {
            Ok(u) => Ok(u),
            Err(e) => Err(NetlinkError::Serialize(e)),
        },
        Err(k) => Err(NetlinkError::IO(k)),
    }
}

/// A kernel uevent socket and its reusable receive area. The area only
/// grows; the message of the latest receive stays until the next one.
pub struct NetlinkHandle {
    fd: i32,
    capacity: usize,
    message: Vec<u8>,
}

impl NetlinkHandle {
    pub closed spec fn spec_fd(&self) -> i32 {
        self.fd
    }

    pub closed spec fn spec_capacity(&self) -> nat {
        self.capacity as nat
    }

    /// Bytes of the latest message received.
    pub closed spec fn spec_message(&self) -> Seq<u8> {
        self.message@
    }

    pub open spec fn wf(&self) -> bool {
        &&& self.spec_message().len() <= self.spec_capacity()
        &&& self.spec_capacity() <= usize::MAX
    }

    /// A handle on the bound socket `fd`, with an initial area and no message.
    pub fn new(fd: i32) -> (r: Self)
        ensures
            r.wf(),
            r.spec_fd() == fd,
            r.spec_capacity() == INITIAL_CAPACITY,
            r.spec_message().len() == 0,
    {
        NetlinkHandle { fd, capacity: INITIAL_CAPACITY, message: Vec::new() }
    }

    pub fn fd(&self) -> (r: i32)
        ensures
            r == self.spec_fd(),
    {
        self.fd
    }

    /// Current size of the receive area.
    pub fn capacity(&self) -> (r: usize)
        ensures
            r == self.spec_capacity(),
    {
        self.capacity
    }

    /// The latest message, exactly as long as it was received.
    pub fn message(&self) -> (r: &Vec<u8>)
        ensures
            r@ == self.spec_message(),
    {
        &self.message
    }

    /// Starts a receive that waits at most `timeout` milliseconds for data,
    /// or blocks until data arrives where `timeout` is negative.
    pub fn read_uevent_msec<E>(&self, timeout: i32) -> (r: RecvAction<E>)
        ensures
            r == start_action::<E>(self.spec_fd(), self.spec_capacity() as usize, timeout),
    {
        if timeout >= 0 {
            RecvAction::Poll { fd: self.fd, timeout }
        } else {
            RecvAction::Probe { fd: self.fd, capacity: self.capacity }
        }
    }

    /// Starts a receive that blocks until data arrives.
    pub fn read_uevent<E>(&self) -> (r: RecvAction<E>)
        ensures
            r == start_action::<E>(self.spec_fd(), self.spec_capacity() as usize, -1i32),
    {
        self.read_uevent_msec(-1)
    }

    /// Next step once the wait is over.
    pub fn after_poll<E>(&self, outcome: PollOutcome) -> (r: RecvAction<E>)
        ensures
            r == poll_action::<E>(self.spec_fd(), self.spec_capacity() as usize, outcome),
    {
        match outcome {
            PollOutcome::Ready => RecvAction::Probe { fd: self.fd, capacity: self.capacity },
            PollOutcome::TimedOut => RecvAction::Fail(NetlinkError::Timeout),
            PollOutcome::Failed(k) => RecvAction::Fail(NetlinkError::IO(k)),
        }
    }

    /// Next step once a probe reported the pending datagram's full size,
    /// growing the area where the datagram does not fit.
    pub fn after_probe<E>(&mut self, probed: Result<usize, IoKind>) -> (r: RecvAction<E>)
        requires
            old(self).wf(),
        ensures
            final(self).wf(),
            final(self).spec_fd() == old(self).spec_fd(),
            final(self).spec_message() == old(self).spec_message(),
            final(self).spec_capacity() == probe_capacity(old(self).spec_capacity() as usize, probed),
            r == probe_action::<E>(old(self).spec_fd(), old(self).spec_capacity() as usize, probed),
    {
        match probed {
            Ok(size) => {
                if size > self.capacity {
                    let doubled = if self.capacity <= usize::MAX / 2 {
                        2 * self.capacity
                    } else {
                        usize::MAX
                    };
                    self.capacity = if doubled >= size { doubled } else { size };
                    RecvAction::Probe { fd: self.fd, capacity: self.capacity }
                } else {
                    RecvAction::Drain { fd: self.fd, capacity: self.capacity }
                }
            },
            Err(k) => RecvAction::Fail(NetlinkError::IO(k)),
        }
    }

    /// Ends a receive: keeps the drained bytes as the latest message and
    /// hands them to the decoder.
    pub fn after_drain<U: Uevent<E>, E>(&mut self, drained: Result<Vec<u8>, IoKind>) -> (r: Result<U, NetlinkError<E>>)
        requires
            old(self).wf(),
            drained matches Ok(data) ==> data@.len() <= old(self).spec_capacity(),
        ensures
            final(self).wf(),
            final(self).spec_fd() == old(self).spec_fd(),
            final(self).spec_capacity() == old(self).spec_capacity(),
            drained matches Ok(data) ==> final(self).spec_message() == data@,
            drained is Err ==> final(self).spec_message() == old(self).spec_message(),
            result_view(r) == drain_result::<U, E>(
                match drained {
                    Ok(data) => Ok(data@),
                    Err(k) => Err(k),
                },
            ),
    {
        match drained {
            Ok(data) => {
                self.message = data;
                match U::from_bytes(&self.message) {
                    Ok(u) => Ok(u),
                    Err(e) => Err(NetlinkError::Serialize(e)),
                }
            },
            Err(k) => Err(NetlinkError::IO(k)),
        }
    }
}

/// What a worker loop does with a receive that produced no event.
#[derive(PartialEq, Eq, Structural, Clone, Copy, Debug)]
pub enum ErrorStep {
    /// The wait elapsed: a regular polling tick.
    Tick,
    /// The read was interrupted: re-read the configuration and go on.
    Recheck,
    /// The message belonged to another subsystem: ignore it and go on.
    Ignore,
    /// An unexpected OS failure: the worker faults.
    Fault(IoKind),
}

pub open spec fn error_step_of<E>(e: NetlinkError<E>) -> ErrorStep {
    match e {
        NetlinkError::Timeout => ErrorStep::Tick,
        NetlinkError::IO(IoKind::Interrupted) => ErrorStep::Recheck,
        NetlinkError::IO(k) => ErrorStep::Fault(k),
        NetlinkError::Serialize(_) => ErrorStep::Ignore,
    }
}

/// Classifies a failed receive for the worker loop.
pub fn error_step<E>(e: &NetlinkError<E>) -> (r: ErrorStep)
    ensures
        r == error_step_of(*e),
{
    match e {
        NetlinkError::Timeout => ErrorStep::Tick,
        NetlinkError::IO(IoKind::Interrupted) => ErrorStep::Recheck,
        NetlinkError::IO(k) => ErrorStep::Fault(*k),
        NetlinkError::Serialize(_) => ErrorStep::Ignore,
    }
}

/// A datagram larger than the area is received whole: the probe grows the
/// area to fit it, the probe after that drains, the drain reads every byte,
/// and the decoder sees the same bytes as with an area large enough from
/// the start.
pub proof fn lemma_receive_never_truncates<U: Uevent<E>, E>(
    fd: i32,
    capacity: usize,
    msg: Seq<u8>,
    presized: nat,
)
    requires
        msg.len() <= usize::MAX,
        presized >= msg.len(),
    ensures
        ({
            let grown_to = probe_capacity(capacity, Ok(msg.len() as usize));
            &&& grown_to >= msg.len()
            &&& grown_to >= capacity
            &&& grown_to <= usize::MAX
            &&& probe_action::<E>(fd, grown_to as usize, Ok(msg.len() as usize))
                == (RecvAction::<E>::Drain { fd, capacity: grown_to as usize })
            &&& read_into(msg, grown_to) == msg
            &&& drain_result::<U, E>(Ok(read_into(msg, grown_to)))
                == drain_result::<U, E>(Ok(read_into(msg, presized)))
        }),
{
}

/// A receive with a non-negative timeout first waits for at most that
/// long, and ends with `Timeout` when nothing became readable.
pub proof fn lemma_bounded_wait<E>(fd: i32, capacity: usize, timeout: i32)
    requires
        timeout >= 0,
    ensures
        start_action::<E>(fd, capacity, timeout) == (RecvAction::<E>::Poll { fd, timeout }),
        poll_action::<E>(fd, capacity, PollOutcome::TimedOut) == RecvAction::<E>::Fail(
            NetlinkError::Timeout,
        ),
{
}

/// A receive with a negative timeout does not wait with a deadline: it
/// goes straight to the read, and none of its later steps ends with
/// `Timeout`.
pub proof fn lemma_unbounded_wait_never_times_out<U: Uevent<E>, E>(
    fd: i32,
    capacity: usize,
    timeout: i32,
    probed: Result<usize, IoKind>,
    drained: Result<Seq<u8>, IoKind>,
)
    requires
        timeout < 0,
    ensures
        start_action::<E>(fd, capacity, timeout) == (RecvAction::<E>::Probe { fd, capacity }),
        probe_action::<E>(fd, capacity, probed) != RecvAction::<E>::Fail(NetlinkError::Timeout),
        drain_result::<U, E>(drained) != Err::<U::V, NetlinkError<E>>(NetlinkError::Timeout),
{
}

/// A message that the decoder rejects surfaces as `Serialize`, never as
/// `Timeout` or `IO`, and the worker loop ignores it and goes on.
pub proof fn lemma_foreign_message_is_ignored<U: Uevent<E>, E>(data: Seq<u8>)
    requires
        (U::decoded(data) is Err),
    ensures
        drain_result::<U, E>(Ok(data)) == Err::<U::V, NetlinkError<E>>(
            NetlinkError::Serialize(U::decoded(data)->Err_0),
        ),
        error_step_of(NetlinkError::<E>::Serialize(U::decoded(data)->Err_0)) == ErrorStep::Ignore,
{
}

} // verus!
