use vstd::prelude::*;

verus! {

/// The kinds of socket error that change what a poll returns.
#[derive(PartialEq, Eq, Structural, Clone, Copy)]
pub enum IoErrorKind {
    /// The operation would block: wait for readiness.
    WouldBlock,
    /// The call was interrupted: try again soon.
    Interrupted,
    /// The socket is not connected yet.
    NotConnected,
    /// Any other error.
    Other,
}

/// What a poll of a socket operation returns.
#[derive(PartialEq, Eq, Structural)]
pub enum IoStep<T> {
    /// The operation finished with this value.
    Ready(T),
    /// Not ready: the registered waker will be woken on readiness.
    Pending,
    /// Not ready: wake the task at once so that it polls again.
    Reschedule,
    /// The operation failed with the error it got.
    Fail,
}

/// The poll result of a read, a write or a shutdown of a stream: a value is
/// ready, a would-block waits for readiness, an interruption reschedules the
/// task, and any other error fails the poll.
pub open spec fn stream_step_spec<T>(r: Result<T, IoErrorKind>) -> IoStep<T> {
    match r {
        Ok(v) => IoStep::Ready(v),
        Err(IoErrorKind::WouldBlock) => IoStep::Pending,
        Err(IoErrorKind::Interrupted) => IoStep::Reschedule,
        Err(_) => IoStep::Fail,
    }
}

/// The poll result of a read, a write or a shutdown of a stream.
pub fn stream_step<T>(r: Result<T, IoErrorKind>) -> (s: IoStep<T>)
    ensures
        s == stream_step_spec(r),
{
    match r {
        Ok(v) => IoStep::Ready(v),
        Err(IoErrorKind::WouldBlock) => IoStep::Pending,
        Err(IoErrorKind::Interrupted) => IoStep::Reschedule,
        Err(_) => IoStep::Fail,
    }
}

/// The poll result of an accept: a connection is ready, a would-block waits
/// for readiness, and any other error (an interruption too) fails the poll.
pub open spec fn accept_step_spec<T>(r: Result<T, IoErrorKind>) -> IoStep<T> {
    match r {
        Ok(v) => IoStep::Ready(v),
        Err(IoErrorKind::WouldBlock) => IoStep::Pending,
        Err(_) => IoStep::Fail,
    }
}

/// The poll result of an accept.
pub fn accept_step<T>(r: Result<T, IoErrorKind>) -> (s: IoStep<T>)
    ensures
        s == accept_step_spec(r),
{
    match r {
        Ok(v) => IoStep::Ready(v),
        Err(IoErrorKind::WouldBlock) => IoStep::Pending,
        Err(_) => IoStep::Fail,
    }
}

/// What to do after registering an accepted stream with the event loop.
#[derive(PartialEq, Eq, Structural, Clone, Copy)]
pub enum RegisterStep {
    /// Registered.
    Done,
    /// Interrupted: register again.
    Retry,
    /// Failed with the error it got.
    Fail,
}

/// The decision after registering an accepted stream.
pub open spec fn register_step_spec(r: Result<(), IoErrorKind>) -> RegisterStep {
    match r {
        Ok(()) => RegisterStep::Done,
        Err(IoErrorKind::Interrupted) => RegisterStep::Retry,
        Err(_) => RegisterStep::Fail,
    }
}

/// The decision after registering an accepted stream.
pub fn register_step(r: Result<(), IoErrorKind>) -> (s: RegisterStep)
    ensures
        s == register_step_spec(r),
{
    match r {
        Ok(()) => RegisterStep::Done,
        Err(IoErrorKind::Interrupted) => RegisterStep::Retry,
        Err(_) => RegisterStep::Fail,
    }
}

/// The progress of an outgoing connection: whether it has been polled and
/// registered yet, and the token it was registered under.
pub struct ConnectProgress {
    first_poll: bool,
    token: Option<usize>,
}

/// What a [`ConnectProgress`] holds.
pub struct ConnectProgressView {
    pub first_poll: bool,
    pub token: Option<usize>,
}

impl View for ConnectProgress {
    type V = ConnectProgressView;

    closed spec fn view(&self) -> ConnectProgressView {
        ConnectProgressView { first_poll: self.first_poll, token: self.token }
    }
}

/// What the first poll of a connection decides from registering the socket.
pub open spec fn registration_step_spec(r: Result<(), IoErrorKind>) -> IoStep<()> {
    match r {
        Ok(()) => IoStep::Pending,
        Err(IoErrorKind::Interrupted) => IoStep::Reschedule,
        Err(_) => IoStep::Fail,
    }
}

/// What a connection probe decides once the socket's pending error is read:
/// `Ok(true)` stands for a pending error, `Ok(false)` for none.
pub open spec fn probe_step_spec(take_error: Result<bool, IoErrorKind>) -> IoStep<()> {
    match take_error {
        Ok(false) => IoStep::Ready(()),
        _ => IoStep::Fail,
    }
}

/// What a connection probe decides from the peer address lookup.
pub open spec fn peer_step_spec(peer: Result<(), IoErrorKind>) -> IoStep<()> {
    match peer {
        Ok(()) => IoStep::Ready(()),
        Err(IoErrorKind::NotConnected) => IoStep::Pending,
        Err(_) => IoStep::Fail,
    }
}

impl ConnectProgress {
    /// A connection that has not been polled.
    pub fn new() -> (r: Self)
        ensures
            r@ == (ConnectProgressView { first_poll: true, token: None }),
    {
        ConnectProgress { first_poll: true, token: None }
    }

    /// Whether the next poll is the first one, which registers the socket.
    pub fn is_first_poll(&self) -> (r: bool)
        ensures
            r == self@.first_poll,
    {
        self.first_poll
    }

    /// The token the socket was registered under, once a poll has begun.
    pub fn token(&self) -> (r: Option<usize>)
        ensures
            r == self@.token,
    {
        self.token
    }

    /// Records the outcome of registering the socket under `token` on the
    /// first poll: once registered the connection waits for readiness; an
    /// interrupted registration reschedules the task to register again; any
    /// other error fails the connection.
    pub fn registered(&mut self, token: usize, r: Result<(), IoErrorKind>) -> (s: IoStep<()>)
        requires
            old(self)@.first_poll,
        ensures
            final(self)@.token == Some(token),
            final(self)@.first_poll == !(r is Ok),
            s == registration_step_spec(r),
    {
        self.token = Some(token);
        match r {
            Ok(()) => {
                self.first_poll = false;
                IoStep::Pending
            },
            Err(IoErrorKind::Interrupted) => IoStep::Reschedule,
            Err(_) => IoStep::Fail,
        }
    }

    /// The decision from the socket's pending error on a later poll: only a
    /// socket without a pending error goes on to the peer address lookup
    /// (`Ready`); a pending error or a failed read fails the connection.
    pub fn probe(&self, take_error: Result<bool, IoErrorKind>) -> (s: IoStep<()>)
        ensures
            s == probe_step_spec(take_error),
    {
        match take_error {
            Ok(false) => IoStep::Ready(()),
            _ => IoStep::Fail,
        }
    }

    /// The decision from the peer address lookup: a known peer means the
    /// connection is established, not-connected means it is still in
    /// progress, and any other error fails it.
    pub fn peer(&self, peer: Result<(), IoErrorKind>) -> (s: IoStep<()>)
        ensures
            s == peer_step_spec(peer),
    {
        match peer {
            Ok(()) => IoStep::Ready(()),
            Err(IoErrorKind::NotConnected) => IoStep::Pending,
            Err(_) => IoStep::Fail,
        }
    }
}

} // verus!
