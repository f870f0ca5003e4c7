use videostream::error::{VslError, EBADF, EBUSY, EEXIST, ENOBUFS, ENOENT};
use videostream::frame::{Frame, Owner};
use videostream::host::{bind_plan, BindPlan, Host, HostAction, SocketEvent};

fn bound_frame(fd: i32) -> Frame {
    let mut f = Frame::new(16, 16, 0, "GREY").unwrap();
    let req = f.allocate(None).unwrap();
    f.complete_alloc(&req, Ok(fd)).unwrap();
    f
}

#[test]
fn test_host() {
    let host = Host::new("/tmp/test.vsl", 3).unwrap();
    assert_eq!(host.path().unwrap(), "/tmp/test.vsl");
    assert_eq!(host.frame_count(), 0);
    assert_eq!(host.next_serial(), 1);
    assert!(matches!(Host::new("", 3), Err(VslError::InvalidArgument)));
    assert!(matches!(Host::new("/tmp/a\0b", 3), Err(VslError::InvalidArgument)));
    assert!(matches!(Host::new("/tmp/x", -1), Err(VslError::Os(EBADF))));
}

#[test]
fn publish_assigns_increasing_serials() {
    let mut host = Host::new("/tmp/serials.vsl", 3).unwrap();
    let mut f = bound_frame(10);
    f.set_timestamp(500);
    let a = host.publish(f, 1000, 33, 7, 6).ok().unwrap();
    let b = host.publish(bound_frame(11), 2000, 33, 8, 7).ok().unwrap();
    assert_eq!(a.serial, 1);
    assert_eq!(b.serial, 2);
    assert_eq!(a.expires, 1000);
    assert_eq!(a.duration, 33);
    assert_eq!(a.pts, 7);
    assert_eq!(a.dts, 6);
    assert_eq!(a.timestamp, 500);
    assert_eq!(host.frame_count(), 2);
    assert_eq!(host.next_serial(), 3);
}

#[test]
fn publish_refusals() {
    let mut host = Host::new("/tmp/refusals.vsl", 3).unwrap();
    let unbound = Frame::new(16, 16, 0, "GREY").unwrap();
    let (e, back) = host.publish(unbound, 10, 0, 0, 0).err().unwrap();
    assert_eq!(e, VslError::InvalidArgument);
    assert_eq!(back.width(), 16);
    let mut mapped = bound_frame(12);
    mapped.mmap().unwrap();
    let (e, _) = host.publish(mapped, 10, 0, 0, 0).err().unwrap();
    assert_eq!(e, VslError::Os(EBUSY));
    assert_eq!(host.frame_count(), 0);
}

#[test]
fn drop_returns_frame() {
    let mut host = Host::new("/tmp/drop.vsl", 3).unwrap();
    host.publish(bound_frame(10), 1000, 0, 0, 0).ok().unwrap();
    host.publish(bound_frame(11), 1000, 0, 0, 0).ok().unwrap();
    let f = host.drop_frame(1).unwrap();
    assert_eq!(f.owner(), Owner::Local);
    assert_eq!(f.serial(), 1);
    assert_eq!(f.handle(), Some(10));
    assert_eq!(host.frame_count(), 1);
    assert_eq!(host.drop_frame(1).err(), Some(VslError::Os(ENOENT)));
}

#[test]
fn expiry_reclaims_due_frames_in_order() {
    let mut host = Host::new("/tmp/expiry.vsl", 3).unwrap();
    host.publish(bound_frame(10), 100, 0, 0, 0).ok().unwrap();
    host.publish(bound_frame(11), 300, 0, 0, 0).ok().unwrap();
    host.publish(bound_frame(12), 200, 0, 0, 0).ok().unwrap();
    // A deadline equal to `now` has not passed yet.
    let torn = host.expire(200);
    assert_eq!(torn.len(), 1);
    assert_eq!(torn[0].leave_pool, Some(1));
    assert_eq!(torn[0].close_fd, Some(10));
    assert_eq!(host.frame_count(), 2);
    let torn = host.expire(201);
    assert_eq!(torn.len(), 1);
    assert_eq!(torn[0].leave_pool, Some(3));
    assert_eq!(host.frame_count(), 1);
    assert_eq!(host.drop_frame(2).unwrap().handle(), Some(11));
    assert!(host.expire(1000).is_empty());
}

#[test]
fn sockets_snapshot() {
    let mut host = Host::new("/tmp/sockets.vsl", 3).unwrap();
    assert_eq!(host.sockets(1).unwrap(), vec![3]);
    assert_eq!(host.sockets(0).err(), Some((VslError::Os(ENOBUFS), 1)));
    host.accept(Ok(5)).unwrap();
    host.accept(Ok(6)).unwrap();
    assert_eq!(host.sockets(8).unwrap(), vec![3, 5, 6]);
    assert_eq!(host.sockets(2).err(), Some((VslError::Os(ENOBUFS), 3)));
    assert_eq!(host.accept(Ok(5)), Err(VslError::Os(EEXIST)));
    assert_eq!(host.accept(Ok(3)), Err(VslError::Os(EEXIST)));
    assert_eq!(host.accept(Err(24)), Err(VslError::Os(24)));
    let p = host.poll(-5);
    assert_eq!(p.fds, vec![3, 5, 6]);
    assert_eq!(p.timeout_ms, 0);
    assert_eq!(host.poll(50).timeout_ms, 50);
}

#[test]
fn process_expires_then_decides() {
    let mut host = Host::new("/tmp/process.vsl", 3).unwrap();
    host.accept(Ok(5)).unwrap();
    host.publish(bound_frame(10), 100, 0, 0, 0).ok().unwrap();
    let step = host.process(150, Some(3));
    assert_eq!(step.expired.len(), 1);
    assert_eq!(step.action, Ok(HostAction::Accept));
    assert_eq!(host.frame_count(), 0);
    assert_eq!(host.process(150, Some(5)).action, Ok(HostAction::Service(5)));
    assert_eq!(host.process(150, Some(9)).action, Err(VslError::Os(EBADF)));
    assert_eq!(host.process(150, None).action, Ok(HostAction::Idle));
}

#[test]
fn service_drops_failed_clients() {
    let mut host = Host::new("/tmp/service.vsl", 3).unwrap();
    host.accept(Ok(5)).unwrap();
    host.accept(Ok(6)).unwrap();
    assert_eq!(host.service(5, SocketEvent::Readable), Ok(false));
    assert_eq!(host.service(5, SocketEvent::Failed(104)), Err(VslError::Os(104)));
    assert_eq!(host.client_count(), 1);
    assert_eq!(host.service(5, SocketEvent::Readable), Err(VslError::Os(EBADF)));
    assert_eq!(host.service(6, SocketEvent::Hangup), Ok(true));
    assert_eq!(host.sockets(4).unwrap(), vec![3]);
}

#[test]
fn release_tears_everything_down() {
    let mut host = Host::new("/tmp/release.vsl", 3).unwrap();
    host.accept(Ok(5)).unwrap();
    host.publish(bound_frame(10), 100, 0, 0, 0).ok().unwrap();
    let t = host.release();
    assert_eq!(t.sockets, vec![3, 5]);
    assert_eq!(t.frames.len(), 1);
    assert_eq!(t.frames[0].close_fd, Some(10));
}

#[test]
fn bind_policy() {
    assert_eq!(bind_plan(false, false), BindPlan::Bind);
    assert_eq!(bind_plan(true, true), BindPlan::Refuse);
    assert_eq!(bind_plan(true, false), BindPlan::UnlinkThenBind);
}
