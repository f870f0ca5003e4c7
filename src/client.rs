use crate::error::{VslError, EBADF, EEXIST, ENOTCONN};
use crate::frame::{borrowed_view, has_nul, info_fits, Frame, FrameInfo, FrameView};
use vstd::prelude::*;
use vstd::string::StringSliceAdditionalSpecFns;

verus! {

/// The state of a client's connection to its host.
#[derive(Debug, Clone, Copy, PartialEq, Eq, Structural)]
pub enum ConnState {
    /// Connected through this socket.
    Connected(i32),
    /// Not connected; the connection is to be attempted again.
    Reconnecting,
    /// Disconnected for good.
    Closed,
}

/// The state of a client, as contracts speak of it.
pub struct ClientView {
    pub path: Seq<char>,
    pub reconnect: bool,
    pub timeout_ms: u64,
    pub state: ConnState,
    /// The timestamp of the last frame handed out, so that frames come out
    /// in non-decreasing timestamp order.
    pub last: i64,
}

/// What happened while a client waited for a frame.
#[derive(Debug, Clone, Copy, PartialEq, Eq, Structural)]
pub enum WaitEvent {
    /// The host announced a frame, and this is the client's descriptor on
    /// its memory.
    Frame(FrameInfo, i32),
    /// The timeout elapsed with no frame.
    TimedOut,
    /// The host hung up.
    HungUp,
}

/// What a client's wait came to.
pub enum WaitOutcome {
    /// A frame that satisfies the wait, locked and borrowed from the host.
    Ready(Frame),
    /// A frame older than asked for: close this descriptor and wait on.
    Skipped(i32),
    /// The connection dropped: close this socket, connect again, and wait
    /// on.
    Reconnect(i32),
    /// The connection dropped for good: close this socket; the wait fails.
    Lost(i32),
    /// The wait failed.
    Failed(VslError),
}

/// The timeout of a new client's waits, in milliseconds.
pub const DEFAULT_TIMEOUT_MS: u64 = 1000;

/// A connection to a host, through which frames are received.
pub struct Client {
    path: String,
    reconnect: bool,
    timeout_ms: u64,
    state: ConnState,
    last: i64,
}

impl View for Client {
    type V = ClientView;

    closed spec fn view(&self) -> ClientView {
        ClientView {
            path: self.path@,
            reconnect: self.reconnect,
            timeout_ms: self.timeout_ms,
            state: self.state,
            last: self.last,
        }
    }
}

impl ClientView {
    /// The invariant that every client keeps.
    pub open spec fn wf(self) -> bool {
        &&& (self.state matches ConnState::Connected(fd) ==> fd >= 0)
        &&& (self.state is Reconnecting ==> self.reconnect)
    }
}

/// What a wait comes to, given the event that ended it.
pub open spec fn wait_result(c: ClientView, until: i64, event: WaitEvent) -> (ClientView, Option<
    FrameView,
>, WaitOutcomeKind) {
    match c.state {
        ConnState::Closed => (c, None, WaitOutcomeKind::Failed(VslError::Os(ENOTCONN))),
        ConnState::Reconnecting => (c, None, WaitOutcomeKind::Failed(VslError::Os(ENOTCONN))),
        ConnState::Connected(sock) => match event {
            WaitEvent::TimedOut => (c, None, WaitOutcomeKind::Failed(VslError::Timeout)),
            WaitEvent::HungUp => if c.reconnect {
                (
                    ClientView { state: ConnState::Reconnecting, ..c },
                    None,
                    WaitOutcomeKind::Reconnect(sock),
                )
            } else {
                (ClientView { state: ConnState::Closed, ..c }, None, WaitOutcomeKind::Lost(sock))
            },
            WaitEvent::Frame(info, fd) => if fd < 0 {
                (c, None, WaitOutcomeKind::Failed(VslError::Os(EBADF)))
            } else if info.timestamp < until || info.timestamp < c.last {
                (c, None, WaitOutcomeKind::Skipped(fd))
            } else if !info_fits(info) {
                (c, None, WaitOutcomeKind::Failed(VslError::InvalidArgument))
            } else {
                (
                    ClientView { last: info.timestamp, ..c },
                    Some(borrowed_view(info, fd)),
                    WaitOutcomeKind::Ready,
                )
            },
        },
    }
}

/// The shape of a wait's outcome.
#[derive(Debug, Clone, Copy, PartialEq, Eq, Structural)]
pub enum WaitOutcomeKind {
    Ready,
    Skipped(i32),
    Reconnect(i32),
    Lost(i32),
    Failed(VslError),
}

/// Whether `o` has the shape `k` and carries the frame `f`.
pub open spec fn outcome_matches(o: WaitOutcome, k: WaitOutcomeKind, f: Option<FrameView>) -> bool {
    match o {
        WaitOutcome::Ready(fr) => k == WaitOutcomeKind::Ready && f == Some(fr@) && fr@.wf(),
        WaitOutcome::Skipped(fd) => k == WaitOutcomeKind::Skipped(fd) && f is None,
        WaitOutcome::Reconnect(fd) => k == WaitOutcomeKind::Reconnect(fd) && f is None,
        WaitOutcome::Lost(fd) => k == WaitOutcomeKind::Lost(fd) && f is None,
        WaitOutcome::Failed(e) => k == WaitOutcomeKind::Failed(e) && f is None,
    }
}

impl Client {
    /// A client of the host at `path`, given the outcome of connecting to
    /// it: the connected socket, or the `errno` of the failure.
    ///
    /// A path that is empty or holds a NUL byte gives `InvalidArgument`. A
    /// failed connection fails the client, unless `reconnect` is set: then
    /// the client is created and the connection is attempted again later.
    pub fn new(path: &str, reconnect: bool, connected: Result<i32, i32>) -> (r: Result<
        Client,
        VslError,
    >)
        ensures
            (path@.len() == 0 || has_nul(path.spec_bytes())) ==> r == Err::<Client, VslError>(
                VslError::InvalidArgument,
            ),
            !(path@.len() == 0 || has_nul(path.spec_bytes())) ==> match connected {
                Ok(fd) => if fd < 0 {
                    r == Err::<Client, VslError>(VslError::Os(EBADF))
                } else {
                    r matches Ok(c) && c@ == ClientView {
                        path: path@,
                        reconnect,
                        timeout_ms: DEFAULT_TIMEOUT_MS,
                        state: ConnState::Connected(fd),
                        last: i64::MIN,
                    }
                },
                Err(e) => if reconnect {
                    r matches Ok(c) && c@ == ClientView {
                        path: path@,
                        reconnect,
                        timeout_ms: DEFAULT_TIMEOUT_MS,
                        state: ConnState::Reconnecting,
                        last: i64::MIN,
                    }
                } else {
                    r == Err::<Client, VslError>(VslError::Os(e))
                },
            },
            r matches Ok(c) ==> c@.wf(),
    {
        if path.is_empty() || crate::frame::contains_nul(path.as_bytes()) {
            return Err(VslError::InvalidArgument);
        }
        let state = match connected {
            Ok(fd) => {
                if fd < 0 {
                    return Err(VslError::Os(EBADF));
                }
                ConnState::Connected(fd)
            },
            Err(e) => {
                if !reconnect {
                    return Err(VslError::Os(e));
                }
                ConnState::Reconnecting
            },
        };
        Ok(
            Client {
                path: path.to_owned(),
                reconnect,
                timeout_ms: DEFAULT_TIMEOUT_MS,
                state,
                last: i64::MIN,
            },
        )
    }

    /// The path of the host.
    pub fn path(&self) -> (r: String)
        ensures
            r@ == self@.path,
    {
        self.path.clone()
    }

    /// The state of the connection.
    pub fn state(&self) -> (r: ConnState)
        ensures
            r == self@.state,
    {
        self.state
    }

    /// How long each wait may block, in milliseconds.
    pub fn timeout_ms(&self) -> (r: u64)
        ensures
            r == self@.timeout_ms,
    {
        self.timeout_ms
    }

    /// Bounds how long each wait may block, in milliseconds.
    pub fn set_timeout(&mut self, timeout_ms: u64)
        requires
            old(self)@.wf(),
        ensures
            final(self)@.wf(),
            final(self)@ == (ClientView { timeout_ms, ..old(self)@ }),
    {
        self.timeout_ms = timeout_ms;
    }

    /// The user data attached to the connection. This entry point is
    /// reserved: no data is ever attached.
    pub fn userptr() -> (r: Option<u64>)
        ensures
            r is None,
    {
        None
    }

    /// Takes the outcome of connecting again: the new socket, or the
    /// `errno` of the failure, after which the client keeps trying. Only a
    /// client that is reconnecting takes one (else `EEXIST` where it is
    /// connected, `ENOTCONN` where it is closed).
    pub fn reconnected(&mut self, outcome: Result<i32, i32>) -> (r: Result<(), VslError>)
        requires
            old(self)@.wf(),
        ensures
            final(self)@.wf(),
            r == match old(self)@.state {
                ConnState::Connected(_) => Err::<(), VslError>(VslError::Os(EEXIST)),
                ConnState::Closed => Err(VslError::Os(ENOTCONN)),
                ConnState::Reconnecting => match outcome {
                    Ok(fd) => if fd < 0 {
                        Err(VslError::Os(EBADF))
                    } else {
                        Ok(())
                    },
                    Err(e) => Err(VslError::Os(e)),
                },
            },
            r matches Ok(_) ==> (outcome matches Ok(fd) && final(self)@ == (ClientView {
                state: ConnState::Connected(fd),
                ..old(self)@
            })),
            r is Err ==> final(self)@ == old(self)@,
    {
        match self.state {
            ConnState::Connected(_) => Err(VslError::Os(EEXIST)),
            ConnState::Closed => Err(VslError::Os(ENOTCONN)),
            ConnState::Reconnecting => match outcome {
                Ok(fd) => {
                    if fd < 0 {
                        return Err(VslError::Os(EBADF));
                    }
                    self.state = ConnState::Connected(fd);
                    Ok(())
                },
                Err(e) => Err(VslError::Os(e)),
            },
        }
    }

    /// Disconnects for good: stops reconnecting, and returns the socket to
    /// close, if the client was connected.
    pub fn disconnect(&mut self) -> (r: Option<i32>)
        requires
            old(self)@.wf(),
        ensures
            final(self)@.wf(),
            final(self)@ == (ClientView { state: ConnState::Closed, reconnect: false, ..old(self)@ }),
            r == match old(self)@.state {
                ConnState::Connected(fd) => Some(fd),
                _ => None,
            },
    {
        let r = match self.state {
            ConnState::Connected(fd) => Some(fd),
            _ => None,
        };
        self.state = ConnState::Closed;
        self.reconnect = false;
        r
    }

    /// Destroys the client, returning the socket to close, if it was
    /// connected.
    pub fn release(self) -> (r: Option<i32>)
        ensures
            r == match self@.state {
                ConnState::Connected(fd) => Some(fd),
                _ => None,
            },
    {
        match self.state {
            ConnState::Connected(fd) => Some(fd),
            _ => None,
        }
    }

    /// Decides a wait for a frame whose timestamp is at least `until`,
    /// given the event that ended it. A frame that satisfies the wait comes
    /// back locked and borrowed from the host; one older than `until`, or
    /// older than the last frame handed out, is skipped. A
    /// timeout gives `Timeout`. A hang-up closes the connection, to be made
    /// again where the client reconnects.
    pub fn get_frame(&mut self, until: i64, event: WaitEvent) -> (r: WaitOutcome)
        requires
            old(self)@.wf(),
        ensures
            final(self)@.wf(),
            final(self)@ == wait_result(old(self)@, until, event).0,
            outcome_matches(
                r,
                wait_result(old(self)@, until, event).2,
                wait_result(old(self)@, until, event).1,
            ),
    {
        match self.state {
            ConnState::Closed => WaitOutcome::Failed(VslError::Os(ENOTCONN)),
            ConnState::Reconnecting => WaitOutcome::Failed(VslError::Os(ENOTCONN)),
            ConnState::Connected(sock) => match event {
                WaitEvent::TimedOut => WaitOutcome::Failed(VslError::Timeout),
                WaitEvent::HungUp => {
                    if self.reconnect {
                        self.state = ConnState::Reconnecting;
                        WaitOutcome::Reconnect(sock)
                    } else {
                        self.state = ConnState::Closed;
                        WaitOutcome::Lost(sock)
                    }
                },
                WaitEvent::Frame(info, fd) => {
                    if fd < 0 {
                        return WaitOutcome::Failed(VslError::Os(EBADF));
                    }
                    if info.timestamp < until || info.timestamp < self.last {
                        return WaitOutcome::Skipped(fd);
                    }
                    match Frame::borrowed(info, fd) {
                        Ok(f) => {
                            self.last = info.timestamp;
                            WaitOutcome::Ready(f)
                        },
                        Err(e) => WaitOutcome::Failed(e),
                    }
                },
            },
        }
    }
}

/// Of two successive waits that both hand out a frame, the second frame is
/// no older than the first, and the first is no older than its wait asked.
pub proof fn lemma_frames_in_timestamp_order(
    c: ClientView,
    until1: i64,
    e1: WaitEvent,
    until2: i64,
    e2: WaitEvent,
)
    requires
        wait_result(c, until1, e1).1 is Some,
        wait_result(wait_result(c, until1, e1).0, until2, e2).1 is Some,
    ensures
        wait_result(c, until1, e1).1->Some_0.timestamp <= wait_result(
            wait_result(c, until1, e1).0,
            until2,
            e2,
        ).1->Some_0.timestamp,
        wait_result(c, until1, e1).1->Some_0.timestamp >= until1,
{
}

impl Frame {
    /// Decides a client's wait for a frame whose timestamp is at least
    /// `until`, as `Client::get_frame` does.
    pub fn wait(client: &mut Client, until: i64, event: WaitEvent) -> (r: WaitOutcome)
        requires
            old(client)@.wf(),
        ensures
            final(client)@.wf(),
            final(client)@ == wait_result(old(client)@, until, event).0,
            outcome_matches(
                r,
                wait_result(old(client)@, until, event).2,
                wait_result(old(client)@, until, event).1,
            ),
    {
        client.get_frame(until, event)
    }
}

} // verus!
