use videostream::client::{Client, ConnState, WaitEvent, WaitOutcome, DEFAULT_TIMEOUT_MS};
use videostream::error::{VslError, EBADF, EEXIST, ENOTCONN};
use videostream::frame::{Frame, Owner};

fn info_at(timestamp: i64) -> videostream::frame::FrameInfo {
    let mut info = Frame::new(16, 16, 0, "GREY").unwrap().info();
    info.timestamp = timestamp;
    info.serial = 4;
    info
}

#[test]
fn connect_outcomes() {
    let c = Client::new("/tmp/test.vsl", false, Ok(7)).unwrap();
    assert_eq!(c.state(), ConnState::Connected(7));
    assert_eq!(c.path(), "/tmp/test.vsl");
    assert_eq!(c.timeout_ms(), DEFAULT_TIMEOUT_MS);
    assert!(matches!(Client::new("/tmp/test.vsl", false, Err(111)), Err(VslError::Os(111))));
    let r = Client::new("/tmp/test.vsl", true, Err(111)).unwrap();
    assert_eq!(r.state(), ConnState::Reconnecting);
    assert!(matches!(Client::new("", true, Ok(7)), Err(VslError::InvalidArgument)));
    assert!(matches!(Client::new("/tmp/x", true, Ok(-2)), Err(VslError::Os(EBADF))));
    assert_eq!(Client::userptr(), None);
}

#[test]
fn wait_returns_locked_borrowed_frame() {
    let mut c = Client::new("/tmp/test.vsl", false, Ok(7)).unwrap();
    match Frame::wait(&mut c, 100, WaitEvent::Frame(info_at(150), 12)) {
        WaitOutcome::Ready(f) => {
            assert_eq!(f.owner(), Owner::Client);
            assert!(f.is_locked());
            assert_eq!(f.timestamp(), 150);
            assert_eq!(f.serial(), 4);
            assert_eq!(f.handle(), Some(12));
        }
        _ => panic!("expected a frame"),
    }
}

#[test]
fn wait_skips_older_frames() {
    let mut c = Client::new("/tmp/test.vsl", false, Ok(7)).unwrap();
    assert!(matches!(
        c.get_frame(100, WaitEvent::Frame(info_at(99), 12)),
        WaitOutcome::Skipped(12)
    ));
    assert!(matches!(
        c.get_frame(100, WaitEvent::Frame(info_at(100), 13)),
        WaitOutcome::Ready(_)
    ));
}

#[test]
fn wait_timeout_is_retryable() {
    let mut c = Client::new("/tmp/test.vsl", false, Ok(7)).unwrap();
    match c.get_frame(0, WaitEvent::TimedOut) {
        WaitOutcome::Failed(e) => {
            assert_eq!(e, VslError::Timeout);
            assert!(e.is_retryable());
        }
        _ => panic!("expected a timeout"),
    }
    assert_eq!(c.state(), ConnState::Connected(7));
}

#[test]
fn hangup_with_and_without_reconnect() {
    let mut r = Client::new("/tmp/test.vsl", true, Ok(7)).unwrap();
    assert!(matches!(r.get_frame(0, WaitEvent::HungUp), WaitOutcome::Reconnect(7)));
    assert_eq!(r.state(), ConnState::Reconnecting);
    assert_eq!(r.reconnected(Err(111)), Err(VslError::Os(111)));
    assert_eq!(r.reconnected(Ok(8)), Ok(()));
    assert_eq!(r.state(), ConnState::Connected(8));
    assert_eq!(r.reconnected(Ok(9)), Err(VslError::Os(EEXIST)));

    let mut c = Client::new("/tmp/test.vsl", false, Ok(7)).unwrap();
    assert!(matches!(c.get_frame(0, WaitEvent::HungUp), WaitOutcome::Lost(7)));
    assert_eq!(c.state(), ConnState::Closed);
    assert!(matches!(
        c.get_frame(0, WaitEvent::TimedOut),
        WaitOutcome::Failed(VslError::Os(ENOTCONN))
    ));
}

#[test]
fn disconnect_stops_reconnecting() {
    let mut c = Client::new("/tmp/test.vsl", true, Ok(7)).unwrap();
    c.set_timeout(250);
    assert_eq!(c.timeout_ms(), 250);
    assert_eq!(c.disconnect(), Some(7));
    assert_eq!(c.state(), ConnState::Closed);
    assert_eq!(c.disconnect(), None);
    assert_eq!(c.reconnected(Ok(8)), Err(VslError::Os(ENOTCONN)));
    assert_eq!(c.release(), None);
}

#[test]
fn frames_come_in_timestamp_order() {
    let mut c = Client::new("/tmp/test.vsl", false, Ok(7)).unwrap();
    assert!(matches!(
        c.get_frame(0, WaitEvent::Frame(info_at(200), 12)),
        WaitOutcome::Ready(_)
    ));
    // An older frame is skipped even though it satisfies `until`.
    assert!(matches!(
        c.get_frame(0, WaitEvent::Frame(info_at(150), 13)),
        WaitOutcome::Skipped(13)
    ));
    assert!(matches!(
        c.get_frame(0, WaitEvent::Frame(info_at(200), 14)),
        WaitOutcome::Ready(_)
    ));
}
