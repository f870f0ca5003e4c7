use crate::error::{VslError, EBADF, EBUSY, EEXIST, ENOBUFS, ENOENT};
use crate::frame::{
    has_nul, info_of, published_view, teardown_of, Frame, FrameInfo, FrameView, Owner, Teardown,
};
use vstd::prelude::*;
use vstd::string::StringSliceAdditionalSpecFns;

verus! {

/// The state of a host, as contracts speak of it.
pub struct HostView {
    pub path: Seq<char>,
    pub listener: i32,
    pub clients: Seq<i32>,
    pub pool: Seq<FrameView>,
    pub next_serial: i64,
}

/// The views of a sequence of frames.
pub open spec fn frame_views(s: Seq<Frame>) -> Seq<FrameView> {
    s.map_values(|f: Frame| f@)
}

/// Whether a published frame stays in the pool through a reclaiming pass
/// made at `now`; with `all`, nothing stays.
pub open spec fn is_kept(now: i64, all: bool) -> spec_fn(FrameView) -> bool {
    |v: FrameView| !all && v.expires >= now
}

/// Whether a published frame is reclaimed by a pass made at `now`; with
/// `all`, every frame is.
pub open spec fn is_reclaimed(now: i64, all: bool) -> spec_fn(FrameView) -> bool {
    |v: FrameView| all || v.expires < now
}

/// Whether a published frame outlives the expiry pass made at `now`: its
/// deadline has not passed yet, which includes a deadline equal to `now`.
pub open spec fn is_live(now: i64) -> spec_fn(FrameView) -> bool {
    is_kept(now, false)
}

/// Whether a published frame is reclaimed by the expiry pass made at `now`:
/// its deadline has passed, that is, lies strictly before `now`.
pub open spec fn is_expired(now: i64) -> spec_fn(FrameView) -> bool {
    is_reclaimed(now, false)
}

/// The sockets of a host: the listening socket first, then the clients.
pub open spec fn socket_list(v: HostView) -> Seq<i32> {
    seq![v.listener] + v.clients
}

/// Why `publish` refuses a frame, if it does.
pub open spec fn publish_error(h: HostView, f: FrameView) -> Option<VslError> {
    if f.owner != Owner::Local || f.backing is None {
        Some(VslError::InvalidArgument)
    } else if f.mapped {
        Some(VslError::Os(EBUSY))
    } else if h.next_serial == i64::MAX {
        Some(VslError::Os(ENOBUFS))
    } else {
        None
    }
}

/// The most clients a host holds: each has its own non-negative `int`
/// descriptor, distinct from the listening socket's, so no more can exist.
pub const MAX_CLIENTS: usize = 0x7fff_fffe;

/// The decision that a host's loop step reached.
#[derive(Debug, Clone, Copy, PartialEq, Eq, Structural)]
pub enum HostAction {
    /// No socket was ready.
    Idle,
    /// The listening socket is ready: accept a new client.
    Accept,
    /// This client socket is ready: service it.
    Service(i32),
}

/// What happened on a client socket.
#[derive(Debug, Clone, Copy, PartialEq, Eq, Structural)]
pub enum SocketEvent {
    /// The client sent data.
    Readable,
    /// The client hung up.
    Hangup,
    /// The socket failed with this `errno`.
    Failed(i32),
}

/// A request to wait for socket activity.
pub struct PollRequest {
    pub fds: Vec<i32>,
    pub timeout_ms: i64,
}

/// One step of a host's loop: the frames reclaimed by the expiry pass, and
/// what to do next.
pub struct ProcessStep {
    pub expired: Vec<Teardown>,
    pub action: Result<HostAction, VslError>,
}

/// The teardown of a host: the sockets to close and the pooled frames to
/// free.
pub struct HostTeardown {
    pub sockets: Vec<i32>,
    pub frames: Vec<Teardown>,
}

/// The owner of a socket endpoint at a filesystem path, of the pool of
/// published frames, and of the connections of its clients.
pub struct Host {
    path: String,
    listener: i32,
    clients: Vec<i32>,
    pool: Vec<Frame>,
    next_serial: i64,
}

impl View for Host {
    type V = HostView;

    closed spec fn view(&self) -> HostView {
        HostView {
            path: self.path@,
            listener: self.listener,
            clients: self.clients@,
            pool: frame_views(self.pool@),
            next_serial: self.next_serial,
        }
    }
}

impl HostView {
    /// The invariant that every host keeps: valid and distinct sockets, and
    /// a pool of host-owned frames whose serials increase and stay below
    /// the next one to be given.
    pub open spec fn wf(self) -> bool {
        &&& self.listener >= 0
        &&& forall|i: int| 0 <= i < self.clients.len() ==> #[trigger] self.clients[i] >= 0
            && self.clients[i] != self.listener
        &&& forall|i: int, j: int|
            0 <= i < j < self.clients.len() ==> #[trigger] self.clients[i] != #[trigger] self.clients[j]
        &&& forall|i: int|
            0 <= i < self.pool.len() ==> (#[trigger] self.pool[i]).wf() && self.pool[i].owner
                == Owner::Host && self.pool[i].serial < self.next_serial
        &&& forall|i: int, j: int|
            0 <= i < j < self.pool.len() ==> #[trigger] self.pool[i].serial
                < #[trigger] self.pool[j].serial
        &&& self.next_serial >= 1
        &&& self.clients.len() <= MAX_CLIENTS
    }
}

fn index_of(v: &Vec<i32>, x: i32) -> (r: Option<usize>)
    ensures
        r matches Some(i) ==> i < v@.len() && v@[i as int] == x,
        r is None ==> !v@.contains(x),
{
    let mut i: usize = 0;
    while i < v.len()
        invariant
            i <= v@.len(),
            forall|j: int| 0 <= j < i ==> v@[j] != x,
        decreases v@.len() - i,
    {
        if v[i] == x {
            return Some(i);
        }
        i = i + 1;
    }
    None
}

impl Host {
    /// A host at `path`, listening on the socket `listener` that the caller
    /// bound there. Fails with `InvalidArgument` for a path that is empty
    /// or holds a NUL byte, and with `EBADF` for a negative socket.
    pub fn new(path: &str, listener: i32) -> (r: Result<Host, VslError>)
        ensures
            (path@.len() == 0 || has_nul(path.spec_bytes())) ==> r == Err::<Host, VslError>(
                VslError::InvalidArgument,
            ),
            !(path@.len() == 0 || has_nul(path.spec_bytes())) && listener < 0 ==> r == Err::<
                Host,
                VslError,
            >(VslError::Os(EBADF)),
            !(path@.len() == 0 || has_nul(path.spec_bytes())) && listener >= 0 ==> (r matches Ok(
                h,
            ) && h@ == (HostView {
                path: path@,
                listener,
                clients: Seq::empty(),
                pool: Seq::empty(),
                next_serial: 1,
            }) && h@.wf()),
    {
        if path.is_empty() || crate::frame::contains_nul(path.as_bytes()) {
            return Err(VslError::InvalidArgument);
        }
        if listener < 0 {
            return Err(VslError::Os(EBADF));
        }
        let h = Host {
            path: path.to_owned(),
            listener,
            clients: Vec::new(),
            pool: Vec::new(),
            next_serial: 1,
        };
        assert(frame_views(h.pool@) =~= Seq::empty());
        Ok(h)
    }

    /// The path that the host is bound to.
    pub fn path(&self) -> (r: Result<String, VslError>)
        ensures
            r matches Ok(p) && p@ == self@.path,
    {
        Ok(self.path.clone())
    }

    /// The number of frames in the pool.
    pub fn frame_count(&self) -> (r: usize)
        ensures
            r == self@.pool.len(),
    {
        self.pool.len()
    }

    /// The number of connected clients.
    pub fn client_count(&self) -> (r: usize)
        ensures
            r == self@.clients.len(),
    {
        self.clients.len()
    }

    /// The serial that the next published frame gets.
    pub fn next_serial(&self) -> (r: i64)
        ensures
            r == self@.next_serial,
    {
        self.next_serial
    }
}


impl Host {
    /// Publishes a frame: moves it into the pool with the next serial and
    /// the given timing, and returns the metadata to send to the clients.
    ///
    /// The frame must be free-standing, bound to memory and unmapped (else
    /// `InvalidArgument`, `InvalidArgument` and `EBUSY`), and the serials
    /// must not be used up (else `ENOBUFS`). On failure the frame is handed
    /// back.
    pub fn publish(
        &mut self,
        frame: Frame,
        expires: i64,
        duration: i64,
        pts: i64,
        dts: i64,
    ) -> (r: Result<FrameInfo, (VslError, Frame)>)
        requires
            old(self)@.wf(),
            frame@.wf(),
        ensures
            final(self)@.wf(),
            publish_error(old(self)@, frame@) matches Some(e) ==> (r matches Err(p) && p.0 == e
                && p.1@ == frame@ && final(self)@ == old(self)@),
            publish_error(old(self)@, frame@) is None ==> ({
                let v = published_view(frame@, old(self)@.next_serial, expires, duration, pts, dts);
                &&& r == Ok::<FrameInfo, (VslError, Frame)>(info_of(v))
                &&& final(self)@ == HostView {
                    pool: old(self)@.pool.push(v),
                    next_serial: (old(self)@.next_serial + 1) as i64,
                    ..old(self)@
                }
            }),
    {
        if frame.owner() != Owner::Local {
            return Err((VslError::InvalidArgument, frame));
        }
        if frame.backing().is_none() {
            return Err((VslError::InvalidArgument, frame));
        }
        if frame.is_mapped() {
            return Err((VslError::Os(EBUSY), frame));
        }
        if self.next_serial == i64::MAX {
            return Err((VslError::Os(ENOBUFS), frame));
        }
        let mut frame = frame;
        frame.mark_published(self.next_serial, expires, duration, pts, dts);
        let info = frame.info();
        let ghost old_pool = self.pool@;
        self.pool.push(frame);
        self.next_serial = self.next_serial + 1;
        assert(frame_views(self.pool@) =~= frame_views(old_pool).push(frame@));
        Ok(info)
    }

    /// Takes the frame with `serial` out of the pool before it expires and
    /// returns it to the caller, free-standing again. Fails with `ENOENT`
    /// where no pooled frame has that serial.
    pub fn drop_frame(&mut self, serial: i64) -> (r: Result<Frame, VslError>)
        requires
            old(self)@.wf(),
        ensures
            final(self)@.wf(),
            (forall|i: int| 0 <= i < old(self)@.pool.len() ==> #[trigger] old(self)@.pool[i].serial
                != serial) ==> r == Err::<Frame, VslError>(VslError::Os(ENOENT)) && final(self)@
                == old(self)@,
            forall|i: int|
                0 <= i < old(self)@.pool.len() && #[trigger] old(self)@.pool[i].serial == serial
                    ==> (r matches Ok(f) && f@ == (FrameView {
                    owner: Owner::Local,
                    locked: false,
                    ..old(self)@.pool[i]
                }) && f@.wf() && final(self)@ == HostView {
                    pool: old(self)@.pool.remove(i),
                    ..old(self)@
                }),
    {
        let mut i: usize = 0;
        while i < self.pool.len()
            invariant
                self@ == old(self)@,
                old(self)@.wf(),
                i <= self.pool@.len(),
                forall|j: int| 0 <= j < i ==> self.pool@[j]@.serial != serial,
            decreases self.pool@.len() - i,
        {
            if self.pool[i].serial() == serial {
                let ghost old_pool = self.pool@;
                let mut f = self.pool.remove(i);
                assert(frame_views(self.pool@) =~= frame_views(old_pool).remove(i as int));
                assert(frame_views(old_pool)[i as int] == f@);
                proof {
                    lemma_remove_keeps_wf(old(self)@, i as int);
                }
                f.mark_returned();
                assert forall|k: int|
                    0 <= k < old(self)@.pool.len() && #[trigger] old(self)@.pool[k].serial
                        == serial implies k == i by {
                    if k < i {
                        assert(old(self)@.pool[k].serial < old(self)@.pool[i as int].serial);
                    } else if k > i {
                        assert(old(self)@.pool[i as int].serial < old(self)@.pool[k].serial);
                    }
                }
                return Ok(f);
            }
            i = i + 1;
        }
        Err(VslError::Os(ENOENT))
    }

    /// The expiry pass: reclaims every pooled frame whose deadline has
    /// passed, that is, lies before `now` (in milliseconds), keeping the
    /// others in order, and returns the teardown of each reclaimed frame.
    pub fn expire(&mut self, now: i64) -> (r: Vec<Teardown>)
        requires
            old(self)@.wf(),
        ensures
            final(self)@.wf(),
            final(self)@ == (HostView { pool: old(self)@.pool.filter(is_live(now)), ..old(self)@ }),
            r@ == old(self)@.pool.filter(is_expired(now)).map_values(|v: FrameView| teardown_of(v)),
    {
        self.reclaim(now, false)
    }

    fn reclaim(&mut self, now: i64, all: bool) -> (r: Vec<Teardown>)
        requires
            old(self)@.wf(),
        ensures
            final(self)@.wf(),
            final(self)@ == (HostView { pool: old(self)@.pool.filter(is_kept(now, all)), ..old(self)@ }),
            r@ == old(self)@.pool.filter(is_reclaimed(now, all)).map_values(|v: FrameView| teardown_of(v)),
    {
        let mut rest: Vec<Frame> = Vec::new();
        std::mem::swap(&mut rest, &mut self.pool);
        let ghost orig = frame_views(rest@);
        let mut torn: Vec<Teardown> = Vec::new();
        proof {
            assert(orig.take(0) =~= Seq::<FrameView>::empty());
            reveal(Seq::filter);
            assert(frame_views(self.pool@) =~= orig.take(0).filter(is_kept(now, all)));
            assert(torn@ =~= orig.take(0).filter(is_reclaimed(now, all)).map_values(
                |v: FrameView| teardown_of(v),
            ));
        }
        while rest.len() > 0
            invariant
                orig == old(self)@.pool,
                old(self)@.wf(),
                rest@.len() <= orig.len(),
                frame_views(rest@) == orig.skip((orig.len() - rest@.len()) as int),
                frame_views(self.pool@) == orig.take((orig.len() - rest@.len()) as int).filter(
                    is_kept(now, all),
                ),
                torn@ == orig.take((orig.len() - rest@.len()) as int).filter(
                    is_reclaimed(now, all),
                ).map_values(|v: FrameView| teardown_of(v)),
                self.path@ == old(self)@.path,
                self.listener == old(self)@.listener,
                self.clients@ == old(self)@.clients,
                self.next_serial == old(self)@.next_serial,
            decreases rest@.len(),
        {
            let ghost k = (orig.len() - rest@.len()) as int;
            let ghost pool_before = frame_views(self.pool@);
            let ghost rest_before = rest@;
            let f = rest.remove(0);
            proof {
                assert(frame_views(rest_before) == orig.skip(k));
                assert(rest_before[0] == f);
                assert(frame_views(rest_before)[0] == f@);
                assert(orig.skip(k)[0] == orig[k]);
                assert(orig[k] == f@);
                assert forall|j: int| 0 <= j < rest@.len() implies #[trigger] frame_views(rest@)[j]
                    == orig.skip(k + 1)[j] by {
                    assert(rest@[j] == rest_before[j + 1]);
                    assert(frame_views(rest_before)[j + 1] == orig.skip(k)[j + 1]);
                }
                assert(frame_views(rest@) =~= orig.skip(k + 1));
                assert(orig.take(k + 1) =~= orig.take(k).push(f@));
                orig.take(k).lemma_filter_push(f@, is_kept(now, all));
                orig.take(k).lemma_filter_push(f@, is_reclaimed(now, all));
            }
            if !all && f.expires() >= now {
                self.pool.push(f);
                proof {
                    assert(frame_views(self.pool@) =~= pool_before.push(f@));
                    assert(torn@ =~= orig.take(k + 1).filter(is_reclaimed(now, all)).map_values(
                        |v: FrameView| teardown_of(v),
                    ));
                }
            } else {
                torn.push(f.release());
                proof {
                    assert(frame_views(self.pool@) == orig.take(k + 1).filter(is_kept(now, all)));
                    assert(torn@ =~= orig.take(k + 1).filter(is_reclaimed(now, all)).map_values(
                        |v: FrameView| teardown_of(v),
                    ));
                }
            }
        }
        proof {
            assert(orig.take(orig.len() as int) =~= orig);
            lemma_filter_keeps_host_pool(orig, now, all, old(self)@);
        }
        torn
    }

    /// Up to `max` of the host's sockets: the listening socket, then one per
    /// client. Where `max` is smaller than that count, nothing is copied and
    /// the error is `ENOBUFS` with the count that is needed.
    pub fn sockets(&self, max: usize) -> (r: Result<Vec<i32>, (VslError, usize)>)
        requires
            self@.wf(),
        ensures
            max < socket_list(self@).len() ==> r == Err::<Vec<i32>, (VslError, usize)>(
                (VslError::Os(ENOBUFS), socket_list(self@).len() as usize),
            ),
            max >= socket_list(self@).len() ==> (r matches Ok(v) && v@ == socket_list(self@)),
    {
        if self.clients.len() >= max {
            return Err((VslError::Os(ENOBUFS), self.clients.len() + 1));
        }
        Ok(self.socket_vec())
    }

    fn socket_vec(&self) -> (r: Vec<i32>)
        ensures
            r@ == socket_list(self@),
    {
        let mut v: Vec<i32> = Vec::new();
        v.push(self.listener);
        let mut i: usize = 0;
        while i < self.clients.len()
            invariant
                i <= self.clients@.len(),
                v@ == seq![self.listener] + self.clients@.take(i as int),
            decreases self.clients@.len() - i,
        {
            v.push(self.clients[i]);
            i = i + 1;
            assert(v@ =~= seq![self.listener] + self.clients@.take(i as int));
        }
        assert(self.clients@.take(i as int) =~= self.clients@);
        v
    }

    /// What to wait on for up to `timeout_ms` milliseconds: every socket of
    /// the host. A negative timeout counts as 0, a check that does not
    /// block, since frames only expire when the loop comes round.
    pub fn poll(&self, timeout_ms: i64) -> (r: PollRequest)
        requires
            self@.wf(),
        ensures
            r.fds@ == socket_list(self@),
            r.timeout_ms == if timeout_ms < 0 {
                0
            } else {
                timeout_ms
            },
    {
        let fds = self.socket_vec();
        PollRequest {
            fds,
            timeout_ms: if timeout_ms < 0 {
                0
            } else {
                timeout_ms
            },
        }
    }

    /// One step of the host's loop at time `now` (milliseconds): first the
    /// expiry pass, then the decision on the socket that polling found
    /// ready, if any. A socket that is not the host's gives `EBADF`, which
    /// does not affect the host.
    pub fn process(&mut self, now: i64, ready: Option<i32>) -> (r: ProcessStep)
        requires
            old(self)@.wf(),
        ensures
            final(self)@.wf(),
            final(self)@ == (HostView { pool: old(self)@.pool.filter(is_live(now)), ..old(self)@ }),
            r.expired@ == old(self)@.pool.filter(is_expired(now)).map_values(
                |v: FrameView| teardown_of(v),
            ),
            r.action == match ready {
                None => Ok::<HostAction, VslError>(HostAction::Idle),
                Some(fd) => if fd == old(self)@.listener {
                    Ok(HostAction::Accept)
                } else if old(self)@.clients.contains(fd) {
                    Ok(HostAction::Service(fd))
                } else {
                    Err(VslError::Os(EBADF))
                },
            },
    {
        let expired = self.expire(now);
        let action = match ready {
            None => Ok(HostAction::Idle),
            Some(fd) => {
                if fd == self.listener {
                    Ok(HostAction::Accept)
                } else {
                    match index_of(&self.clients, fd) {
                        Some(_) => Ok(HostAction::Service(fd)),
                        None => Err(VslError::Os(EBADF)),
                    }
                }
            },
        };
        ProcessStep { expired, action }
    }

    /// Takes the outcome of accepting a connection on the listening socket:
    /// the new client's socket, or the `errno` of the failure. A socket the
    /// host already has gives `EEXIST`, a negative one `EBADF`.
    pub fn accept(&mut self, outcome: Result<i32, i32>) -> (r: Result<(), VslError>)
        requires
            old(self)@.wf(),
        ensures
            final(self)@.wf(),
            r is Err ==> final(self)@ == old(self)@,
            r == match outcome {
                Err(e) => Err::<(), VslError>(VslError::Os(e)),
                Ok(fd) => if fd < 0 {
                    Err(VslError::Os(EBADF))
                } else if fd == old(self)@.listener || old(self)@.clients.contains(fd) {
                    Err(VslError::Os(EEXIST))
                } else if old(self)@.clients.len() >= MAX_CLIENTS {
                    Err(VslError::Os(ENOBUFS))
                } else {
                    Ok(())
                },
            },
            r is Ok ==> (outcome matches Ok(fd) && final(self)@ == (HostView {
                clients: old(self)@.clients.push(fd),
                ..old(self)@
            })),
    {
        match outcome {
            Err(e) => Err(VslError::Os(e)),
            Ok(fd) => {
                if fd < 0 {
                    return Err(VslError::Os(EBADF));
                }
                if fd == self.listener {
                    return Err(VslError::Os(EEXIST));
                }
                match index_of(&self.clients, fd) {
                    Some(_) => Err(VslError::Os(EEXIST)),
                    None => {
                        if self.clients.len() >= MAX_CLIENTS {
                            return Err(VslError::Os(ENOBUFS));
                        }
                        self.clients.push(fd);
                        Ok(())
                    },
                }
            },
        }
    }

    /// Services one client socket. A hang-up or a failure drops the client,
    /// whose socket the caller then closes; a failure is reported as that
    /// socket's error. A socket that is not a client's gives `EBADF`.
    pub fn service(&mut self, socket: i32, event: SocketEvent) -> (r: Result<bool, VslError>)
        requires
            old(self)@.wf(),
        ensures
            final(self)@.wf(),
            !old(self)@.clients.contains(socket) ==> r == Err::<bool, VslError>(
                VslError::Os(EBADF),
            ) && final(self)@ == old(self)@,
            old(self)@.clients.contains(socket) ==> match event {
                SocketEvent::Readable => r == Ok::<bool, VslError>(false) && final(self)@
                    == old(self)@,
                SocketEvent::Hangup => r == Ok::<bool, VslError>(true) && final(self)@ == (
                HostView { clients: old(self)@.clients.remove_value(socket), ..old(self)@ }),
                SocketEvent::Failed(e) => r == Err::<bool, VslError>(VslError::Os(e))
                    && final(self)@ == (HostView {
                    clients: old(self)@.clients.remove_value(socket),
                    ..old(self)@
                }),
            },
    {
        let i = match index_of(&self.clients, socket) {
            Some(i) => i,
            None => return Err(VslError::Os(EBADF)),
        };
        proof {
            lemma_index_is_first(self.clients@, i as int, socket);
        }
        match event {
            SocketEvent::Readable => Ok(false),
            SocketEvent::Hangup => {
                self.clients.remove(i);
                Ok(true)
            },
            SocketEvent::Failed(e) => {
                self.clients.remove(i);
                Err(VslError::Os(e))
            },
        }
    }

    /// Tears the host down: every socket to close, the listening socket
    /// first, and the teardown of every pooled frame.
    pub fn release(self) -> (r: HostTeardown)
        requires
            self@.wf(),
        ensures
            r.sockets@ == socket_list(self@),
            r.frames@ == self@.pool.map_values(|v: FrameView| teardown_of(v)),
    {
        let sockets = self.socket_vec();
        let mut host = self;
        let frames = host.reclaim(0, true);
        proof {
            lemma_reclaim_all(self@.pool);
        }
        HostTeardown { sockets, frames }
    }
}

proof fn lemma_index_is_first(s: Seq<i32>, i: int, x: i32)
    requires
        0 <= i < s.len(),
        s[i] == x,
        forall|a: int, b: int| 0 <= a < b < s.len() ==> #[trigger] s[a] != #[trigger] s[b],
    ensures
        s.remove_value(x) == s.remove(i),
        s.contains(x),
{
    assert(s.contains(x));
    s.index_of_first_ensures(x);
    let j = s.index_of_first(x)->Some_0;
    if j != i {
        if j < i {
            assert(s[j] != s[i]);
        } else {
            assert(s[i] != s[j]);
        }
    }
}

proof fn lemma_remove_keeps_wf(h: HostView, i: int)
    requires
        h.wf(),
        0 <= i < h.pool.len(),
    ensures
        (HostView { pool: h.pool.remove(i), ..h }).wf(),
        h.pool[i].wf(),
{
    let p = h.pool.remove(i);
    assert forall|a: int, b: int| 0 <= a < b < p.len() implies #[trigger] p[a].serial
        < #[trigger] p[b].serial by {
        let a2 = if a < i {
            a
        } else {
            a + 1
        };
        let b2 = if b < i {
            b
        } else {
            b + 1
        };
        assert(p[a] == h.pool[a2]);
        assert(p[b] == h.pool[b2]);
    }
    assert forall|a: int| 0 <= a < p.len() implies (#[trigger] p[a]).wf() && p[a].owner
        == Owner::Host && p[a].serial < h.next_serial by {
        let a2 = if a < i {
            a
        } else {
            a + 1
        };
        assert(p[a] == h.pool[a2]);
    }
}

proof fn lemma_reclaim_all(pool: Seq<FrameView>)
    ensures
        pool.filter(is_reclaimed(0, true)) == pool,
    decreases pool.len(),
{
    reveal(Seq::filter);
    if pool.len() > 0 {
        lemma_reclaim_all(pool.drop_last());
        assert(pool.drop_last().push(pool.last()) =~= pool);
    }
}

proof fn lemma_filter_keeps_host_pool(orig: Seq<FrameView>, now: i64, all: bool, h: HostView)
    requires
        h.wf(),
        orig == h.pool,
    ensures
        (HostView { pool: orig.filter(is_kept(now, all)), ..h }).wf(),
{
    broadcast use vstd::seq_lib::group_filter_ensures;

    let kept = orig.filter(is_kept(now, all));
    lemma_filter_serials_increase(orig, is_kept(now, all));
    assert forall|i: int| 0 <= i < kept.len() implies (#[trigger] kept[i]).wf() && kept[i].owner
        == Owner::Host && kept[i].serial < h.next_serial by {
        assert(orig.contains(kept[i]));
    }
}

proof fn lemma_filter_serials_increase(s: Seq<FrameView>, p: spec_fn(FrameView) -> bool)
    requires
        forall|i: int, j: int| 0 <= i < j < s.len() ==> #[trigger] s[i].serial < #[trigger] s[j].serial,
    ensures
        forall|i: int, j: int|
            0 <= i < j < s.filter(p).len() ==> #[trigger] s.filter(p)[i].serial
                < #[trigger] s.filter(p)[j].serial,
        forall|i: int| 0 <= i < s.filter(p).len() ==> s.contains(#[trigger] s.filter(p)[i]),
    decreases s.len(),
{
    reveal(Seq::filter);
    broadcast use vstd::seq_lib::group_filter_ensures;

    if s.len() > 0 {
        let t = s.drop_last();
        lemma_filter_serials_increase(t, p);
        let ft = t.filter(p);
        assert forall|i: int| 0 <= i < ft.len() implies #[trigger] ft[i].serial < s.last().serial by {
            assert(t.contains(ft[i]));
            let k = choose|k: int| 0 <= k < t.len() && t[k] == ft[i];
            assert(s[k] == t[k]);
        }
        assert forall|i: int| 0 <= i < s.filter(p).len() implies s.contains(
            #[trigger] s.filter(p)[i],
        ) by {
            if p(s.last()) {
                assert(s.filter(p) == ft.push(s.last()));
                if i < ft.len() {
                    assert(t.contains(ft[i]));
                    let k = choose|k: int| 0 <= k < t.len() && t[k] == ft[i];
                    assert(s[k] == t[k]);
                } else {
                    assert(s[s.len() - 1] == s.last());
                }
            } else {
                assert(t.contains(ft[i]));
                let k = choose|k: int| 0 <= k < t.len() && t[k] == ft[i];
                assert(s[k] == t[k]);
            }
        }
    }
}

/// What to do at a host's path before binding its socket there.
#[derive(Debug, Clone, Copy, PartialEq, Eq, Structural)]
pub enum BindPlan {
    /// Nothing is there: bind.
    Bind,
    /// A socket that no host answers on is there: unlink it, then bind.
    UnlinkThenBind,
    /// A live host answers there: refuse with `EADDRINUSE`.
    Refuse,
}

/// `EADDRINUSE`: a live host already owns the path.
pub const EADDRINUSE: i32 = 98;

/// Decides how to take a path for a new host, given whether an entry
/// exists there and whether a host answered a connection to it. A live
/// host is never displaced; a stale socket is replaced.
pub fn bind_plan(exists: bool, peer_answers: bool) -> (r: BindPlan)
    ensures
        !exists ==> r == BindPlan::Bind,
        exists && peer_answers ==> r == BindPlan::Refuse,
        exists && !peer_answers ==> r == BindPlan::UnlinkThenBind,
{
    if !exists {
        BindPlan::Bind
    } else if peer_answers {
        BindPlan::Refuse
    } else {
        BindPlan::UnlinkThenBind
    }
}

} // verus!
